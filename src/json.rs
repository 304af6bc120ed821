//! Access to parsed JSON documents through serde_json.
//!
//! A `serde_json::Value` is opaque here: what the library reads of one is named
//! by the spec functions below, one for each serde_json accessor it calls.
use vstd::prelude::*;
use crate::text::opt_chars;

verus! {

#[verifier::external_type_specification]
#[verifier::external_body]
pub struct ExJsonValue(serde_json::Value);

#[verifier::external_type_specification]
#[verifier::external_body]
pub struct ExJsonError(serde_json::Error);

/// What `Value::get` with a string key returns: the member of an object under
/// that key, `None` for a missing key or a value that is not an object.
pub uninterp spec fn json_member(v: serde_json::Value, key: Seq<char>) -> Option<serde_json::Value>;

/// What `Value::as_array` returns: the elements of an array, `None` otherwise.
pub uninterp spec fn json_elements(v: serde_json::Value) -> Option<Seq<serde_json::Value>>;

/// What `Value::as_str` returns: the text of a string, `None` otherwise.
pub uninterp spec fn json_text(v: serde_json::Value) -> Option<Seq<char>>;

/// What `Value::as_bool` returns: the value of a boolean, `None` otherwise.
pub uninterp spec fn json_flag(v: serde_json::Value) -> Option<bool>;

/// What `serde_json::from_str::<Value>` makes of a text: the document it
/// holds, `None` where the text is not one JSON document.
pub uninterp spec fn json_document(text: Seq<char>) -> Option<serde_json::Value>;

/// Relies on `serde_json::from_str::<Value>`: parses a whole text as one JSON
/// document, and fails exactly on text that is not one.
#[verifier::external_body]
pub(crate) fn parse_json(text: &str) -> (r: Result<serde_json::Value, serde_json::Error>)
    ensures
        match r {
            Ok(v) => json_document(text@) == Some(v),
            Err(_) => json_document(text@) is None,
        },
{
    serde_json::from_str::<serde_json::Value>(text)
}

/// Relies on `serde_json::Value::get` with a `&str` index: the member of an
/// object under `key`.
#[verifier::external_body]
pub(crate) fn member<'a>(v: &'a serde_json::Value, key: &str) -> (r: Option<&'a serde_json::Value>)
    ensures
        match r {
            Some(m) => json_member(*v, key@) == Some(*m),
            None => json_member(*v, key@) is None,
        },
{
    v.get(key)
}

/// Relies on `serde_json::Value::as_array`: the elements of an array.
#[verifier::external_body]
pub(crate) fn elements<'a>(v: &'a serde_json::Value) -> (r: Option<&'a Vec<serde_json::Value>>)
    ensures
        match r {
            Some(a) => json_elements(*v) == Some(a@),
            None => json_elements(*v) is None,
        },
{
    v.as_array()
}

/// Relies on `serde_json::Value::as_str`: the text of a string.
#[verifier::external_body]
pub(crate) fn text_of<'a>(v: &'a serde_json::Value) -> (r: Option<&'a str>)
    ensures
        match r {
            Some(s) => json_text(*v) == Some(s@),
            None => json_text(*v) is None,
        },
{
    v.as_str()
}

/// Relies on `serde_json::Value::as_bool`: the value of a boolean.
#[verifier::external_body]
pub(crate) fn flag_of(v: &serde_json::Value) -> (r: Option<bool>)
    ensures
        r == json_flag(*v),
{
    v.as_bool()
}

/// The member under `key` of an optional value.
pub open spec fn opt_member(v: Option<serde_json::Value>, key: Seq<char>) -> Option<serde_json::Value> {
    match v {
        Some(w) => json_member(w, key),
        None => None,
    }
}

/// The text of an optional value, if it is a string.
pub open spec fn opt_text(v: Option<serde_json::Value>) -> Option<Seq<char>> {
    match v {
        Some(w) => json_text(w),
        None => None,
    }
}

/// The value of an optional value, if it is a boolean.
pub open spec fn opt_flag(v: Option<serde_json::Value>) -> Option<bool> {
    match v {
        Some(w) => json_flag(w),
        None => None,
    }
}

/// An optional reference read as an optional value.
pub open spec fn deref_opt(v: Option<&serde_json::Value>) -> Option<serde_json::Value> {
    match v {
        Some(w) => Some(*w),
        None => None,
    }
}

/// The text of a string value, copied out.
pub(crate) fn string_of(v: Option<&serde_json::Value>) -> (r: Option<String>)
    ensures
        opt_chars(r) == opt_text(deref_opt(v)),
{
    match v {
        Some(w) => match text_of(w) {
            Some(s) => Some(String::from_str(s)),
            None => None,
        },
        None => None,
    }
}

/// The value of a boolean value.
pub(crate) fn bool_of(v: Option<&serde_json::Value>) -> (r: Option<bool>)
    ensures
        r == opt_flag(deref_opt(v)),
{
    match v {
        Some(w) => flag_of(w),
        None => None,
    }
}

/// The member of an optional value under `key`.
pub(crate) fn member_of<'a>(v: Option<&'a serde_json::Value>, key: &str) -> (r: Option<&'a serde_json::Value>)
    ensures
        deref_opt(r) == opt_member(deref_opt(v), key@),
{
    match v {
        Some(w) => member(w, key),
        None => None,
    }
}

} // verus!
