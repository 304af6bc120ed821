//! The media hosting platforms that a post's destination can point to.
use vstd::prelude::*;
use crate::text::{contains_seq, contains_str};

verus! {

/// The hosting platform of a post's destination, as far as its address tells.
#[derive(Debug, Clone, Copy, PartialEq, Eq, Structural)]
pub enum VideoPlatform {
    Imgur,
    RedGifs,
    Unknown,
}

/// The domain that marks an Imgur destination.
pub open spec fn imgur_domain() -> Seq<char> {
    "imgur.com"@
}

/// The domain that marks a RedGifs destination.
pub open spec fn redgifs_domain() -> Seq<char> {
    "redgifs.com"@
}

/// The platform of a destination address: Imgur when it holds the Imgur
/// domain anywhere, else RedGifs when it holds the RedGifs domain, else
/// Unknown. The address is not otherwise checked.
pub open spec fn platform_of(link: Seq<char>) -> VideoPlatform {
    if contains_seq(link, imgur_domain()) {
        VideoPlatform::Imgur
    } else if contains_seq(link, redgifs_domain()) {
        VideoPlatform::RedGifs
    } else {
        VideoPlatform::Unknown
    }
}

/// Finds the hosting platform that a destination address names.
pub fn find_video_platform(link: &str) -> (r: VideoPlatform)
    ensures
        r == platform_of(link@),
        contains_seq(link@, imgur_domain()) ==> r == VideoPlatform::Imgur,
        !contains_seq(link@, imgur_domain()) && contains_seq(link@, redgifs_domain())
            ==> r == VideoPlatform::RedGifs,
        !contains_seq(link@, imgur_domain()) && !contains_seq(link@, redgifs_domain())
            ==> r == VideoPlatform::Unknown,
{
    if contains_str(link, "imgur.com") {
        return VideoPlatform::Imgur;
    }
    if contains_str(link, "redgifs.com") {
        return VideoPlatform::RedGifs;
    }
    VideoPlatform::Unknown
}

} // verus!
