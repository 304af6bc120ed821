//! Reading a user's feed: its address, and the posts in its JSON document.
use vstd::prelude::*;
use crate::json::{
    bool_of, elements, json_document, json_elements, json_member, member, member_of,
    opt_flag, opt_member, opt_text, parse_json, string_of,
};
use crate::post::{
    classified_as, classify, classify_items, FeedError, FeedItem, FeedItemView, Post,
};
use crate::text::opt_chars;

verus! {

/// The start of every feed address.
pub open spec fn feed_base() -> Seq<char> {
    "https://www.reddit.com/user/"@
}

/// The address of a user's feed, from the start or after a cursor.
pub open spec fn feed_address(username: Seq<char>, after: Option<Seq<char>>) -> Seq<char> {
    match after {
        None => feed_base() + username + ".json"@,
        Some(a) => feed_base() + username + ".json"@ + "?after="@ + a,
    }
}

/// Builds the address of a user's feed: the first page, or the page after the
/// cursor `after`.
pub fn feed_url(username: &str, after: Option<&str>) -> (r: String)
    ensures
        r@ == feed_address(
            username@,
            match after {
                Some(a) => Some(a@),
                None => None,
            },
        ),
{
    let mut url = String::from_str("https://www.reddit.com/user/");
    url.append(username);
    url.append(".json");
    match after {
        Some(a) => {
            url.append("?after=");
            url.append(a);
        },
        None => {},
    }
    url
}

/// Whether an optional value holds a member under `key`, whatever its value.
pub open spec fn has_member(v: Option<serde_json::Value>, key: Seq<char>) -> bool {
    opt_member(v, key) is Some
}

/// What a child of the feed holds, read from its `data` object.
pub open spec fn item_of_value(child: serde_json::Value) -> FeedItemView {
    let data = json_member(child, "data"@);
    let preview = opt_member(opt_member(data, "preview"@), "reddit_video_preview"@);
    FeedItemView {
        is_submitter: has_member(data, "is_submitter"@),
        title: opt_text(opt_member(data, "title"@)),
        permalink: opt_text(opt_member(data, "permalink"@)),
        id: opt_text(opt_member(data, "id"@)),
        dest_url: opt_text(opt_member(data, "url_overridden_by_dest"@)),
        is_video: opt_flag(opt_member(data, "is_video"@)),
        post_hint: opt_text(opt_member(data, "post_hint"@)),
        has_gif_marker: has_member(preview, "is_gif"@),
    }
}

/// Reads the fields that classification needs from one child of the feed.
pub fn feed_item_from_value(child: &serde_json::Value) -> (r: FeedItem)
    ensures
        r@ == item_of_value(*child),
{
    let data = member(child, "data");
    let preview = member_of(member_of(data, "preview"), "reddit_video_preview");
    FeedItem {
        is_submitter: member_of(data, "is_submitter").is_some(),
        title: string_of(member_of(data, "title")),
        permalink: string_of(member_of(data, "permalink")),
        id: string_of(member_of(data, "id")),
        dest_url: string_of(member_of(data, "url_overridden_by_dest")),
        is_video: bool_of(member_of(data, "is_video")),
        post_hint: string_of(member_of(data, "post_hint")),
        has_gif_marker: member_of(preview, "is_gif").is_some(),
    }
}

/// The children of a feed document: the array under `data.children`.
pub open spec fn feed_children(feed: serde_json::Value) -> Option<Seq<serde_json::Value>> {
    match opt_member(json_member(feed, "data"@), "children"@) {
        Some(c) => json_elements(c),
        None => None,
    }
}

/// The items of a sequence of feed children.
pub open spec fn items_of_values(children: Seq<serde_json::Value>) -> Seq<FeedItemView> {
    children.map_values(|c: serde_json::Value| item_of_value(c))
}

/// `r` is what classifying the feed document `feed` gives.
pub open spec fn posts_of_feed(r: Result<Vec<Post>, FeedError>, feed: serde_json::Value) -> bool {
    match feed_children(feed) {
        None => r == Err::<Vec<Post>, FeedError>(FeedError::MissingChildren),
        Some(children) => classified_as(r, classify(items_of_values(children))),
    }
}

/// Classifies the posts of a parsed feed document. Fails without any post when
/// the document has no array under `data.children`.
pub fn fetch_posts_from_value(feed: &serde_json::Value) -> (r: Result<Vec<Post>, FeedError>)
    ensures
        posts_of_feed(r, *feed),
{
    let children = match member_of(member(feed, "data"), "children") {
        Some(c) => match elements(c) {
            Some(a) => a,
            None => return Err(FeedError::MissingChildren),
        },
        None => return Err(FeedError::MissingChildren),
    };
    let mut items: Vec<FeedItem> = Vec::new();
    let mut i: usize = 0;
    while i < children.len()
        invariant
            i <= children@.len(),
            items@.len() == i,
            forall|k: int| 0 <= k < i ==> (#[trigger] items@[k])@ == item_of_value(children@[k]),
        decreases children@.len() - i,
    {
        let item = feed_item_from_value(&children[i]);
        items.push(item);
        i = i + 1;
    }
    assert(crate::post::item_views(items@) =~= items_of_values(children@));
    classify_items(&items)
}

/// Parses a feed body and classifies its posts. Fails when the body is not a
/// JSON document, and as `fetch_posts_from_value` does on the document.
pub fn posts_from_json_text(body: &str) -> (r: Result<Vec<Post>, FeedError>)
    ensures
        match json_document(body@) {
            None => r == Err::<Vec<Post>, FeedError>(FeedError::Json),
            Some(feed) => posts_of_feed(r, feed),
        },
{
    match parse_json(body) {
        Ok(feed) => fetch_posts_from_value(&feed),
        Err(_) => Err(FeedError::Json),
    }
}

/// The pagination cursor of a feed document: the string under `data.after`.
pub fn get_after_value(feed: &serde_json::Value) -> (r: Option<String>)
    ensures
        opt_chars(r) == opt_text(opt_member(json_member(*feed, "data"@), "after"@)),
{
    string_of(member_of(member(feed, "data"), "after"))
}

} // verus!
