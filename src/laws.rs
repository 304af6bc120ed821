//! Properties of the classifier and the platform resolver that hold for all
//! inputs.
use vstd::prelude::*;
use crate::download::{next_download, run_download, DownloadAction, DownloadState, StreamEvent};
use crate::platform::VideoPlatform;
use crate::resolve::{lookup_prefix, resolution_request_of, watch_prefix, ResolveError};
use crate::post::{chars_or_empty, classify, image_hint, item_complete, link_hint, post_of_item, FeedItemView, PostView};

verus! {

/// An item that is not marked as a self-post.
pub open spec fn not_self_post(i: FeedItemView) -> bool {
    !i.is_submitter
}

/// Self-posts are left out: whenever classification succeeds, its posts are
/// exactly those of the items without an `is_submitter` marker, in feed order.
pub proof fn lemma_self_posts_excluded(items: Seq<FeedItemView>)
    ensures
        classify(items) is Ok ==> classify(items)->Ok_0 == items.filter(|i: FeedItemView| not_self_post(i)).map_values(
            |i: FeedItemView| post_of_item(i),
        ),
    decreases items.len(),
{
    let pred = |i: FeedItemView| not_self_post(i);
    let f = |i: FeedItemView| post_of_item(i);
    if items.len() > 0 {
        lemma_self_posts_excluded(items.drop_last());
        reveal(Seq::filter);
        let rest = items.drop_last().filter(pred);
        if pred(items.last()) {
            assert(items.filter(pred) == rest.push(items.last()));
            assert(rest.push(items.last()).map_values(f) =~= rest.map_values(f).push(f(items.last())));
        } else {
            assert(items.filter(pred) == rest);
        }
    } else {
        reveal(Seq::filter);
        assert(items.filter(pred).map_values(f) =~= Seq::<PostView>::empty());
    }
}

/// Where no item is marked as a self-post, a successful classification yields
/// one post per item; and it succeeds when every item holds its required fields.
pub proof fn lemma_no_self_posts_keeps_count(items: Seq<FeedItemView>)
    requires
        forall|k: int| 0 <= k < items.len() ==> !(#[trigger] items[k]).is_submitter,
    ensures
        classify(items) is Ok ==> classify(items)->Ok_0.len() == items.len(),
        (forall|k: int| 0 <= k < items.len() ==> item_complete(#[trigger] items[k])) ==> classify(items) is Ok,
    decreases items.len(),
{
    if items.len() > 0 {
        let rest = items.drop_last();
        assert forall|k: int| 0 <= k < rest.len() implies !(#[trigger] rest[k]).is_submitter by {
            assert(rest[k] == items[k]);
        }
        lemma_no_self_posts_keeps_count(rest);
        if forall|k: int| 0 <= k < items.len() ==> item_complete(#[trigger] items[k]) {
            assert forall|k: int| 0 <= k < rest.len() implies item_complete(#[trigger] rest[k]) by {
                assert(rest[k] == items[k]);
            }
            assert(item_complete(items[items.len() - 1]));
        }
    }
}

/// No post is both an image and a link: the hint `image` makes an image and
/// not a link, the hint `link` a link and not an image, any other hint (or
/// none) neither.
pub proof fn lemma_hints_exclusive(item: FeedItemView)
    ensures
        !(post_of_item(item).is_image && post_of_item(item).is_link),
        chars_or_empty(item.post_hint) == image_hint() ==> post_of_item(item).is_image && !post_of_item(
            item,
        ).is_link,
        chars_or_empty(item.post_hint) == link_hint() ==> post_of_item(item).is_link && !post_of_item(
            item,
        ).is_image,
        chars_or_empty(item.post_hint) != image_hint() && chars_or_empty(item.post_hint) != link_hint()
            ==> !post_of_item(item).is_image && !post_of_item(item).is_link,
{
    reveal_strlit("image");
    reveal_strlit("link");
    assert(image_hint().len() != link_hint().len());
}

} // verus!

verus! {

/// A RedGifs watch page is looked up at the address that keeps everything
/// after the watch prefix and puts the lookup prefix before it.
pub proof fn lemma_lookup_keeps_path(path: Seq<char>)
    ensures
        resolution_request_of(watch_prefix() + path, VideoPlatform::RedGifs) == Ok::<
            Option<Seq<char>>,
            ResolveError,
        >(Some(lookup_prefix() + path)),
{
    let dest = watch_prefix() + path;
    assert(dest.subrange(0, watch_prefix().len() as int) =~= watch_prefix());
    assert(dest.subrange(watch_prefix().len() as int, dest.len() as int) =~= path);
}

} // verus!

verus! {

/// Without the normal end of the body, a download never becomes complete.
proof fn lemma_complete_needs_end(events: Seq<StreamEvent>)
    requires
        forall|k: int| 0 <= k < events.len() ==> events[k] != StreamEvent::End,
    ensures
        !(run_download(DownloadState::Receiving(0), events) is Complete),
    decreases events.len(),
{
    if events.len() > 0 {
        lemma_complete_needs_end(events.drop_last());
        assert(events.last() != StreamEvent::End);
    }
}

/// A download whose stream fails before its body ends leaves no file behind:
/// the failure removes what was written, and the download stays discarded
/// whatever the stream delivers after it.
pub proof fn lemma_failure_discards(events: Seq<StreamEvent>, j: int)
    requires
        0 <= j < events.len(),
        events[j] == StreamEvent::Failed,
        forall|k: int| 0 <= k < j ==> events[k] != StreamEvent::End,
    ensures
        next_download(run_download(DownloadState::Receiving(0), events.take(j)), events[j]).1
            == DownloadAction::RemovePartial || run_download(DownloadState::Receiving(0), events.take(j))
            == DownloadState::Discarded,
        run_download(DownloadState::Receiving(0), events) == DownloadState::Discarded,
    decreases events.len(),
{
    let prefix = events.take(j);
    assert forall|k: int| 0 <= k < prefix.len() implies prefix[k] != StreamEvent::End by {
        assert(prefix[k] == events[k]);
    }
    lemma_complete_needs_end(prefix);
    if events.len() == j + 1 {
        assert(events.drop_last() =~= prefix);
    } else {
        assert(events.drop_last()[j] == events[j]);
        assert forall|k: int| 0 <= k < j implies events.drop_last()[k] != StreamEvent::End by {
            assert(events.drop_last()[k] == events[k]);
        }
        lemma_failure_discards(events.drop_last(), j);
    }
}

} // verus!
