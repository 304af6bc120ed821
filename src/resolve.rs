//! Turning a gif post's destination into a direct media address.
use vstd::prelude::*;
use crate::json::{json_document, json_member, member, member_of, opt_member, opt_text, parse_json, string_of};
use crate::platform::VideoPlatform;
use crate::text::{occurs_at, opt_chars, starts_with_str};

verus! {

/// Why a media address could not be resolved.
#[derive(Debug, Clone, Copy, PartialEq, Eq, Structural)]
pub enum ResolveError {
    /// The platform is known but resolving its addresses is not supported.
    UnsupportedPlatform,
    /// The platform's answer is not a JSON document.
    Json,
    /// The platform's answer holds no string at `gfyItem.content_urls.mp4.url`.
    MissingMediaUrl,
}

/// The start of a RedGifs watch page address.
pub open spec fn watch_prefix() -> Seq<char> {
    "https://redgifs.com/watch"@
}

/// The start of the RedGifs lookup address that replaces it.
pub open spec fn lookup_prefix() -> Seq<char> {
    "https://api.redgifs.com/v1/gfycats"@
}

/// The lookup address for a RedGifs watch page: its watch prefix replaced by
/// the lookup prefix, the rest kept; `None` for any other address.
pub open spec fn lookup_address(dest: Seq<char>) -> Option<Seq<char>> {
    if occurs_at(dest, watch_prefix(), 0) {
        Some(lookup_prefix() + dest.subrange(watch_prefix().len() as int, dest.len() as int))
    } else {
        None
    }
}

/// Rewrites a RedGifs watch page address into the address of its lookup.
pub fn redgifs_api_url(dest_url: &str) -> (r: Option<String>)
    ensures
        opt_chars(r) == lookup_address(dest_url@),
{
    if !starts_with_str(dest_url, "https://redgifs.com/watch") {
        return None;
    }
    proof {
        reveal_strlit("https://redgifs.com/watch");
    }
    let n = dest_url.unicode_len();
    let rest = dest_url.substring_char(25, n);
    let mut url = String::from_str("https://api.redgifs.com/v1/gfycats");
    url.append(rest);
    Some(url)
}

/// What resolving a destination asks for: an error, nothing (the address
/// cannot be resolved), or the address whose JSON answer names the media.
pub open spec fn resolution_request_of(dest: Seq<char>, provider: VideoPlatform) -> Result<
    Option<Seq<char>>,
    ResolveError,
> {
    match provider {
        VideoPlatform::Imgur => Err(ResolveError::UnsupportedPlatform),
        VideoPlatform::Unknown => Ok(None),
        VideoPlatform::RedGifs => Ok(lookup_address(dest)),
    }
}

/// Decides how to resolve a destination on a platform: Imgur is not supported,
/// an unknown platform cannot be resolved, and a RedGifs watch page is looked
/// up at its lookup address.
pub fn resolution_request(dest_url: &str, provider: VideoPlatform) -> (r: Result<Option<String>, ResolveError>)
    ensures
        match resolution_request_of(dest_url@, provider) {
            Err(e) => r == Err::<Option<String>, ResolveError>(e),
            Ok(a) => r is Ok && opt_chars(r->Ok_0) == a,
        },
{
    match provider {
        VideoPlatform::Imgur => Err(ResolveError::UnsupportedPlatform),
        VideoPlatform::Unknown => Ok(None),
        VideoPlatform::RedGifs => Ok(redgifs_api_url(dest_url)),
    }
}

/// The media address in a lookup answer: the string at
/// `gfyItem.content_urls.mp4.url`.
pub open spec fn media_address(answer: serde_json::Value) -> Option<Seq<char>> {
    opt_text(
        opt_member(
            opt_member(opt_member(json_member(answer, "gfyItem"@), "content_urls"@), "mp4"@),
            "url"@,
        ),
    )
}

/// `r` is the media address of the lookup answer `answer`, unchanged.
pub open spec fn media_url_of(r: Result<String, ResolveError>, answer: serde_json::Value) -> bool {
    match media_address(answer) {
        Some(u) => r is Ok && r->Ok_0@ == u,
        None => r == Err::<String, ResolveError>(ResolveError::MissingMediaUrl),
    }
}

/// Reads the direct media address out of a parsed lookup answer.
pub fn media_url_from_value(answer: &serde_json::Value) -> (r: Result<String, ResolveError>)
    ensures
        media_url_of(r, *answer),
{
    let item = member(answer, "gfyItem");
    let mp4 = member_of(member_of(item, "content_urls"), "mp4");
    match string_of(member_of(mp4, "url")) {
        Some(u) => Ok(u),
        None => Err(ResolveError::MissingMediaUrl),
    }
}

/// Parses a lookup answer and reads the direct media address out of it.
pub fn media_url_from_json_text(body: &str) -> (r: Result<String, ResolveError>)
    ensures
        match json_document(body@) {
            None => r == Err::<String, ResolveError>(ResolveError::Json),
            Some(answer) => media_url_of(r, answer),
        },
{
    match parse_json(body) {
        Ok(answer) => media_url_from_value(&answer),
        Err(_) => Err(ResolveError::Json),
    }
}

} // verus!
