use feed_media::download::{advance_download, download_start, DownloadAction, DownloadState, StreamEvent};
use feed_media::platform::{find_video_platform, VideoPlatform};
use feed_media::resolve::{
    media_url_from_json_text, media_url_from_value, redgifs_api_url, resolution_request, ResolveError,
};
use feed_media::text::{contains_str, equals_str, starts_with_str};

#[test]
fn platforms_by_domain() {
    assert_eq!(find_video_platform("https://i.imgur.com/x.gifv"), VideoPlatform::Imgur);
    assert_eq!(find_video_platform("https://redgifs.com/watch/abc"), VideoPlatform::RedGifs);
    assert_eq!(find_video_platform("https://example.org/a"), VideoPlatform::Unknown);
    assert_eq!(find_video_platform(""), VideoPlatform::Unknown);
    assert_eq!(
        find_video_platform("https://redgifs.com/watch?from=imgur.com"),
        VideoPlatform::Imgur
    );
    assert_eq!(find_video_platform("imgur.co"), VideoPlatform::Unknown);
}

#[test]
fn watch_page_rewritten_to_lookup() {
    assert_eq!(
        redgifs_api_url("https://redgifs.com/watch/abc123"),
        Some("https://api.redgifs.com/v1/gfycats/abc123".to_string())
    );
    assert_eq!(redgifs_api_url("https://www.example.com/watch/abc123"), None);
    assert_eq!(
        resolution_request("https://redgifs.com/watch/abc123", VideoPlatform::RedGifs),
        Ok(Some("https://api.redgifs.com/v1/gfycats/abc123".to_string()))
    );
}

#[test]
fn resolution_by_platform() {
    assert_eq!(
        resolution_request("https://imgur.com/a", VideoPlatform::Imgur),
        Err(ResolveError::UnsupportedPlatform)
    );
    assert_eq!(resolution_request("https://example.org/a", VideoPlatform::Unknown), Ok(None));
}

#[test]
fn media_address_returned_unchanged() {
    let body = "{\"gfyItem\":{\"content_urls\":{\"mp4\":{\"url\":\"https://thumbs.example/abc123.mp4\"}}}}";
    assert_eq!(
        media_url_from_json_text(body),
        Ok("https://thumbs.example/abc123.mp4".to_string())
    );
    let v: serde_json::Value = serde_json::from_str(body).unwrap();
    assert_eq!(media_url_from_value(&v), Ok("https://thumbs.example/abc123.mp4".to_string()));
}

#[test]
fn media_address_missing_or_unparsable() {
    assert_eq!(
        media_url_from_json_text("{\"gfyItem\":{\"content_urls\":{}}}"),
        Err(ResolveError::MissingMediaUrl)
    );
    assert_eq!(
        media_url_from_json_text("{\"gfyItem\":{\"content_urls\":{\"mp4\":{\"url\":3}}}}"),
        Err(ResolveError::MissingMediaUrl)
    );
    assert_eq!(media_url_from_json_text("not json"), Err(ResolveError::Json));
}

#[test]
fn download_completes_on_end() {
    let mut s = download_start();
    assert_eq!(advance_download(&mut s, StreamEvent::Chunk(10)), DownloadAction::WriteChunk);
    assert_eq!(advance_download(&mut s, StreamEvent::Chunk(5)), DownloadAction::WriteChunk);
    assert_eq!(s, DownloadState::Receiving(15));
    assert_eq!(advance_download(&mut s, StreamEvent::End), DownloadAction::Finish);
    assert_eq!(s, DownloadState::Complete(15));
    assert_eq!(advance_download(&mut s, StreamEvent::Failed), DownloadAction::Ignore);
    assert_eq!(s, DownloadState::Complete(15));
}

#[test]
fn dropped_stream_removes_partial_file() {
    let mut s = download_start();
    assert_eq!(advance_download(&mut s, StreamEvent::Chunk(4096)), DownloadAction::WriteChunk);
    assert_eq!(advance_download(&mut s, StreamEvent::Failed), DownloadAction::RemovePartial);
    assert_eq!(s, DownloadState::Discarded);
    assert_eq!(advance_download(&mut s, StreamEvent::End), DownloadAction::Ignore);
    assert_eq!(s, DownloadState::Discarded);
}

#[test]
fn oversized_download_is_discarded() {
    let mut s = DownloadState::Receiving(u64::MAX - 1);
    assert_eq!(advance_download(&mut s, StreamEvent::Chunk(2)), DownloadAction::RemovePartial);
    assert_eq!(s, DownloadState::Discarded);
}

#[test]
fn text_search() {
    assert!(contains_str("abcabd", "abd"));
    assert!(!contains_str("abcab", "abd"));
    assert!(contains_str("x", ""));
    assert!(!contains_str("", "x"));
    assert!(starts_with_str("https://redgifs.com/watch/a", "https://redgifs.com/watch"));
    assert!(!starts_with_str("http", "https"));
    assert!(equals_str("ab", "ab"));
    assert!(!equals_str("ab", "abc"));
}
