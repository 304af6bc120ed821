//! Fetching, classifying and resolving the media posts of a user's public feed.
//!
//! The network and the file system stay with the caller: this library builds the
//! request addresses, reads the feed and the hosting platform's answers out of
//! parsed JSON, classifies each post, and decides what a download writes.
pub mod download;
pub mod feed;
pub mod json;
pub mod laws;
pub mod platform;
pub mod post;
pub mod resolve;
pub mod text;
