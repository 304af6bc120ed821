//! Feed items, the posts classified from them, and the classifier.
use vstd::prelude::*;
use crate::platform::{find_video_platform, platform_of, VideoPlatform};
use crate::text::{equals_str, opt_chars};

verus! {

/// Why a feed could not be turned into posts.
#[derive(Debug, Clone, Copy, PartialEq, Eq, Structural)]
pub enum FeedError {
    /// The body is not a JSON document.
    Json,
    /// The document has no array under `data.children`.
    MissingChildren,
    /// The child at this position is not a self-post and lacks a required
    /// field: a string `title`, `permalink` or `id`, or a boolean `is_video`.
    MalformedItem(usize),
}

/// One child of a feed, with the fields that classification reads.
/// A field that the feed does not hold, or holds with another JSON type, is `None`.
#[derive(Debug, Clone)]
pub struct FeedItem {
    /// The item carries an `is_submitter` marker, whatever its value.
    pub is_submitter: bool,
    pub title: Option<String>,
    pub permalink: Option<String>,
    pub id: Option<String>,
    pub dest_url: Option<String>,
    pub is_video: Option<bool>,
    pub post_hint: Option<String>,
    /// The item's preview carries an `is_gif` marker, whatever its value.
    pub has_gif_marker: bool,
}

pub struct FeedItemView {
    pub is_submitter: bool,
    pub title: Option<Seq<char>>,
    pub permalink: Option<Seq<char>>,
    pub id: Option<Seq<char>>,
    pub dest_url: Option<Seq<char>>,
    pub is_video: Option<bool>,
    pub post_hint: Option<Seq<char>>,
    pub has_gif_marker: bool,
}

/// The characters of an optional string, the empty sequence when absent.
pub open spec fn chars_or_empty(s: Option<Seq<char>>) -> Seq<char> {
    match s {
        Some(t) => t,
        None => Seq::empty(),
    }
}

impl View for FeedItem {
    type V = FeedItemView;

    open spec fn view(&self) -> FeedItemView {
        FeedItemView {
            is_submitter: self.is_submitter,
            title: opt_chars(self.title),
            permalink: opt_chars(self.permalink),
            id: opt_chars(self.id),
            dest_url: opt_chars(self.dest_url),
            is_video: self.is_video,
            post_hint: opt_chars(self.post_hint),
            has_gif_marker: self.has_gif_marker,
        }
    }
}

/// A feed item that survived the self-post filter, with its classification.
#[derive(Debug, Clone)]
pub struct Post {
    pub title: String,
    pub permalink: String,
    pub dest_url: String,
    pub id: String,
    pub is_video: bool,
    pub is_gif: bool,
    pub is_image: bool,
    pub is_link: bool,
    pub video_platform: VideoPlatform,
}

pub struct PostView {
    pub title: Seq<char>,
    pub permalink: Seq<char>,
    pub dest_url: Seq<char>,
    pub id: Seq<char>,
    pub is_video: bool,
    pub is_gif: bool,
    pub is_image: bool,
    pub is_link: bool,
    pub video_platform: VideoPlatform,
}

impl View for Post {
    type V = PostView;

    open spec fn view(&self) -> PostView {
        PostView {
            title: self.title@,
            permalink: self.permalink@,
            dest_url: self.dest_url@,
            id: self.id@,
            is_video: self.is_video,
            is_gif: self.is_gif,
            is_image: self.is_image,
            is_link: self.is_link,
            video_platform: self.video_platform,
        }
    }
}

/// The post hint of an image post.
pub open spec fn image_hint() -> Seq<char> {
    "image"@
}

/// The post hint of a link post.
pub open spec fn link_hint() -> Seq<char> {
    "link"@
}

/// Whether a post hint marks an image.
pub fn check_if_image(hint: &str) -> (r: bool)
    ensures
        r == (hint@ == image_hint()),
{
    equals_str(hint, "image")
}

/// Whether a post hint marks a link.
pub fn check_if_link(hint: &str) -> (r: bool)
    ensures
        r == (hint@ == link_hint()),
{
    equals_str(hint, "link")
}

/// An item that is not a self-post is usable when it holds every required field.
pub open spec fn item_complete(i: FeedItemView) -> bool {
    &&& i.title is Some
    &&& i.permalink is Some
    &&& i.id is Some
    &&& i.is_video is Some
}

/// The post that a complete item becomes. A missing destination or post hint
/// reads as empty.
pub open spec fn post_of_item(i: FeedItemView) -> PostView {
    let dest = chars_or_empty(i.dest_url);
    let hint = chars_or_empty(i.post_hint);
    PostView {
        title: i.title->Some_0,
        permalink: i.permalink->Some_0,
        dest_url: dest,
        id: i.id->Some_0,
        is_video: i.is_video->Some_0,
        is_gif: i.has_gif_marker,
        is_image: hint == image_hint(),
        is_link: hint == link_hint(),
        video_platform: platform_of(dest),
    }
}

/// The posts of a sequence of items, in order, with self-posts left out; or
/// the position of the first item that is neither a self-post nor complete.
pub open spec fn classify(items: Seq<FeedItemView>) -> Result<Seq<PostView>, int>
    decreases items.len(),
{
    if items.len() == 0 {
        Ok(Seq::empty())
    } else {
        match classify(items.drop_last()) {
            Err(k) => Err(k),
            Ok(posts) => {
                let last = items.last();
                if last.is_submitter {
                    Ok(posts)
                } else if !item_complete(last) {
                    Err(items.len() - 1)
                } else {
                    Ok(posts.push(post_of_item(last)))
                }
            },
        }
    }
}

/// The views of a sequence of feed items.
pub open spec fn item_views(items: Seq<FeedItem>) -> Seq<FeedItemView> {
    items.map_values(|i: FeedItem| i@)
}

/// The views of a sequence of posts.
pub open spec fn post_views(posts: Seq<Post>) -> Seq<PostView> {
    posts.map_values(|p: Post| p@)
}

/// The result of classifying `items` matches the classification `c`.
pub open spec fn classified_as(r: Result<Vec<Post>, FeedError>, c: Result<Seq<PostView>, int>) -> bool {
    match c {
        Ok(ps) => r is Ok && post_views(r->Ok_0@) == ps,
        Err(k) => r == Err::<Vec<Post>, FeedError>(FeedError::MalformedItem(k as usize)),
    }
}

/// Once a prefix of the items fails to classify, every longer prefix fails
/// at the same position.
proof fn lemma_classify_failure_persists(items: Seq<FeedItemView>, n: int, m: int)
    requires
        0 <= n <= m <= items.len(),
        classify(items.take(n)) is Err,
    ensures
        classify(items.take(m)) == classify(items.take(n)),
    decreases m - n,
{
    if m > n {
        lemma_classify_failure_persists(items, n, m - 1);
        assert(items.take(m).drop_last() =~= items.take(m - 1));
    }
}

fn copy_text(s: &String) -> (r: String)
    ensures
        r@ == s@,
{
    s.clone()
}

/// The post that a complete feed item becomes.
pub fn post_from_item(item: &FeedItem) -> (r: Option<Post>)
    ensures
        item_complete(item@) <==> r is Some,
        r is Some ==> r->Some_0@ == post_of_item(item@),
{
    let title = match &item.title {
        Some(t) => copy_text(t),
        None => return None,
    };
    let permalink = match &item.permalink {
        Some(t) => copy_text(t),
        None => return None,
    };
    let id = match &item.id {
        Some(t) => copy_text(t),
        None => return None,
    };
    let is_video = match item.is_video {
        Some(b) => b,
        None => return None,
    };
    let dest_url = match &item.dest_url {
        Some(t) => copy_text(t),
        None => String::new(),
    };
    let (is_image, is_link) = match &item.post_hint {
        Some(h) => (check_if_image(h.as_str()), check_if_link(h.as_str())),
        None => {
            proof {
                reveal_strlit("image");
                reveal_strlit("link");
            }
            assert(image_hint().len() == 5);
            assert(link_hint().len() == 4);
            (false, false)
        },
    };
    let video_platform = find_video_platform(dest_url.as_str());
    Some(
        Post {
            title,
            permalink,
            dest_url,
            id,
            is_video,
            is_gif: item.has_gif_marker,
            is_image,
            is_link,
            video_platform,
        },
    )
}

/// Classifies feed items in order, leaving out self-posts; fails on the first
/// other item that lacks a required field.
pub fn classify_items(items: &Vec<FeedItem>) -> (r: Result<Vec<Post>, FeedError>)
    ensures
        classified_as(r, classify(item_views(items@))),
{
    let mut posts: Vec<Post> = Vec::new();
    let mut i: usize = 0;
    assert(item_views(items@).take(0) =~= Seq::<FeedItemView>::empty());
    assert(post_views(posts@) =~= Seq::<PostView>::empty());
    while i < items.len()
        invariant
            i <= items@.len(),
            classify(item_views(items@).take(i as int)) == Ok::<Seq<PostView>, int>(post_views(posts@)),
        decreases items@.len() - i,
    {
        let ghost views = item_views(items@);
        assert(views.take(i + 1).drop_last() =~= views.take(i as int));
        assert(views.take(i + 1).last() == items@[i as int]@);
        let item = &items[i];
        if !item.is_submitter {
            match post_from_item(item) {
                Some(p) => {
                    let ghost before = posts@;
                    posts.push(p);
                    assert(post_views(posts@) =~= post_views(before).push(p@));
                },
                None => {
                    proof {
                        lemma_classify_failure_persists(views, i as int + 1, views.len() as int);
                        assert(views.take(views.len() as int) =~= views);
                    }
                    return Err(FeedError::MalformedItem(i));
                },
            }
        }
        i = i + 1;
    }
    assert(item_views(items@).take(items@.len() as int) =~= item_views(items@));
    Ok(posts)
}

} // verus!
