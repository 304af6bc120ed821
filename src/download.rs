//! What a post's download writes, and how a streamed download ends.
use vstd::prelude::*;
use crate::post::Post;

verus! {

/// The file name of an image post's media.
pub open spec fn image_file(id: Seq<char>) -> Seq<char> {
    id + ".png"@
}

/// The file name of a gif post's media.
pub open spec fn gif_file(id: Seq<char>) -> Seq<char> {
    id + ".mp4"@
}

impl Post {
    /// The file that this post's image is saved to: `<id>.png`, for an image post only.
    pub fn image_file_name(&self) -> (r: Option<String>)
        ensures
            r is Some <==> self.is_image,
            r is Some ==> r->Some_0@ == image_file(self.id@),
    {
        if self.is_image {
            let mut name = self.id.clone();
            name.append(".png");
            Some(name)
        } else {
            None
        }
    }

    /// The file that this post's resolved gif is saved to: `<id>.mp4`, for a gif post only.
    pub fn gif_file_name(&self) -> (r: Option<String>)
        ensures
            r is Some <==> self.is_gif,
            r is Some ==> r->Some_0@ == gif_file(self.id@),
    {
        if self.is_gif {
            let mut name = self.id.clone();
            name.append(".mp4");
            Some(name)
        } else {
            None
        }
    }
}

/// What the response stream of a download delivers next.
#[derive(Debug, Clone, Copy, PartialEq, Eq, Structural)]
pub enum StreamEvent {
    /// A chunk of this many bytes.
    Chunk(u64),
    /// The body ended normally.
    End,
    /// The connection dropped or the file could not be written.
    Failed,
}

/// Where a download stands.
#[derive(Debug, Clone, Copy, PartialEq, Eq, Structural)]
pub enum DownloadState {
    /// Bytes are arriving; this many have been written.
    Receiving(u64),
    /// The whole body, of this many bytes, is in the file.
    Complete(u64),
    /// The download failed and its file is gone.
    Discarded,
}

/// What the caller does with the file for an event.
#[derive(Debug, Clone, Copy, PartialEq, Eq, Structural)]
pub enum DownloadAction {
    /// Append the chunk to the file.
    WriteChunk,
    /// Close the file: it is complete.
    Finish,
    /// Delete the partly written file.
    RemovePartial,
    /// Nothing: the download is already over.
    Ignore,
}

/// The state and action that follow an event.
pub open spec fn next_download(state: DownloadState, event: StreamEvent) -> (DownloadState, DownloadAction) {
    match state {
        DownloadState::Receiving(n) => match event {
            StreamEvent::Chunk(k) => if n + k <= u64::MAX {
                (DownloadState::Receiving((n + k) as u64), DownloadAction::WriteChunk)
            } else {
                (DownloadState::Discarded, DownloadAction::RemovePartial)
            },
            StreamEvent::End => (DownloadState::Complete(n), DownloadAction::Finish),
            StreamEvent::Failed => (DownloadState::Discarded, DownloadAction::RemovePartial),
        },
        _ => (state, DownloadAction::Ignore),
    }
}

/// The state of a download before its first byte.
pub fn download_start() -> (r: DownloadState)
    ensures
        r == DownloadState::Receiving(0),
{
    DownloadState::Receiving(0)
}

/// Advances a download by one event of its response stream, and says what to
/// do with the file. A failure while receiving removes the partial file; only
/// the normal end of the body makes a download complete.
pub fn advance_download(state: &mut DownloadState, event: StreamEvent) -> (r: DownloadAction)
    ensures
        (*final(state), r) == next_download(*old(state), event),
{
    match *state {
        DownloadState::Receiving(n) => match event {
            StreamEvent::Chunk(k) => match n.checked_add(k) {
                Some(m) => {
                    *state = DownloadState::Receiving(m);
                    DownloadAction::WriteChunk
                },
                None => {
                    *state = DownloadState::Discarded;
                    DownloadAction::RemovePartial
                },
            },
            StreamEvent::End => {
                *state = DownloadState::Complete(n);
                DownloadAction::Finish
            },
            StreamEvent::Failed => {
                *state = DownloadState::Discarded;
                DownloadAction::RemovePartial
            },
        },
        _ => DownloadAction::Ignore,
    }
}

} // verus!

verus! {

/// The state that a download reaches from `start` over a run of events.
pub open spec fn run_download(start: DownloadState, events: Seq<StreamEvent>) -> DownloadState
    decreases events.len(),
{
    if events.len() == 0 {
        start
    } else {
        next_download(run_download(start, events.drop_last()), events.last()).0
    }
}

} // verus!
