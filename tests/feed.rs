use feed_media::feed::{feed_url, fetch_posts_from_value, get_after_value, posts_from_json_text};
use feed_media::platform::VideoPlatform;
use feed_media::post::{check_if_image, check_if_link, classify_items, FeedError, FeedItem};

fn child(fields: &str) -> String {
    format!("{{\"kind\":\"t3\",\"data\":{{{}}}}}", fields)
}

fn feed(children: &[String]) -> String {
    format!("{{\"data\":{{\"after\":null,\"children\":[{}]}}}}", children.join(","))
}

const IMAGE_POST: &str = "\"title\":\"t\",\"permalink\":\"/r/x/1\",\"is_video\":false,\
\"url_overridden_by_dest\":\"https://i.example/img.png\",\"post_hint\":\"image\",\"id\":\"abc\"";

#[test]
fn one_image_post_is_classified() {
    let posts = posts_from_json_text(&feed(&[child(IMAGE_POST)])).unwrap();
    assert_eq!(posts.len(), 1);
    let p = &posts[0];
    assert_eq!(p.title, "t");
    assert_eq!(p.permalink, "/r/x/1");
    assert_eq!(p.dest_url, "https://i.example/img.png");
    assert_eq!(p.id, "abc");
    assert!(p.is_image);
    assert!(!p.is_link);
    assert!(!p.is_gif);
    assert!(!p.is_video);
    assert_eq!(p.video_platform, VideoPlatform::Unknown);
    assert_eq!(p.image_file_name(), Some("abc.png".to_string()));
    assert_eq!(p.gif_file_name(), None);
}

#[test]
fn missing_children_is_a_structural_error() {
    assert_eq!(
        posts_from_json_text("{\"data\":{\"after\":null}}").unwrap_err(),
        FeedError::MissingChildren
    );
    assert_eq!(posts_from_json_text("{}").unwrap_err(), FeedError::MissingChildren);
    assert_eq!(
        posts_from_json_text("{\"data\":{\"children\":{}}}").unwrap_err(),
        FeedError::MissingChildren
    );
}

#[test]
fn body_that_is_not_json_fails() {
    assert_eq!(posts_from_json_text("<html>").unwrap_err(), FeedError::Json);
    assert_eq!(posts_from_json_text("").unwrap_err(), FeedError::Json);
}

#[test]
fn empty_children_give_no_posts() {
    assert_eq!(posts_from_json_text(&feed(&[])).unwrap().len(), 0);
}

#[test]
fn without_self_posts_every_child_becomes_a_post() {
    let link = "\"title\":\"l\",\"permalink\":\"/r/x/2\",\"is_video\":true,\"post_hint\":\"link\",\"id\":\"b\"";
    let posts = posts_from_json_text(&feed(&[child(IMAGE_POST), child(link), child(IMAGE_POST)])).unwrap();
    assert_eq!(posts.len(), 3);
    assert_eq!(posts[1].id, "b");
    assert!(posts[1].is_link);
    assert!(!posts[1].is_image);
    assert!(posts[1].is_video);
    assert_eq!(posts[1].dest_url, "");
}

#[test]
fn submitter_marker_excludes_whatever_its_value() {
    let marked_false = format!("{},\"is_submitter\":false", IMAGE_POST);
    let marked_true = "\"is_submitter\":true,\"body\":\"a comment\"".to_string();
    let second = "\"title\":\"s\",\"permalink\":\"/r/x/3\",\"is_video\":false,\"id\":\"c\"";
    let posts = posts_from_json_text(&feed(&[
        child(&marked_false),
        child(second),
        child(&marked_true),
    ]))
    .unwrap();
    assert_eq!(posts.len(), 1);
    assert_eq!(posts[0].id, "c");
    assert!(!posts[0].is_image && !posts[0].is_link);
}

#[test]
fn item_without_required_field_fails_at_its_position() {
    let no_video_flag = "\"title\":\"t\",\"permalink\":\"/r/x/1\",\"id\":\"abc\"";
    let comment = "\"is_submitter\":true".to_string();
    let r = posts_from_json_text(&feed(&[child(&comment), child(IMAGE_POST), child(no_video_flag)]));
    assert_eq!(r.unwrap_err(), FeedError::MalformedItem(2));
    let title_not_text = "\"title\":7,\"permalink\":\"/r/x/1\",\"is_video\":false,\"id\":\"abc\"";
    assert_eq!(
        posts_from_json_text(&feed(&[child(title_not_text)])).unwrap_err(),
        FeedError::MalformedItem(0)
    );
}

#[test]
fn gif_marker_presence_is_enough() {
    let gif = format!(
        "{},\"preview\":{{\"reddit_video_preview\":{{\"is_gif\":false}}}}",
        "\"title\":\"g\",\"permalink\":\"/r/x/4\",\"is_video\":false,\"id\":\"g1\",\
\"url_overridden_by_dest\":\"https://redgifs.com/watch/abc123\""
    );
    let no_gif = "\"title\":\"g\",\"permalink\":\"/r/x/4\",\"is_video\":false,\"id\":\"g2\",\
\"preview\":{\"reddit_video_preview\":{}}";
    let posts = posts_from_json_text(&feed(&[child(&gif), child(no_gif)])).unwrap();
    assert!(posts[0].is_gif);
    assert_eq!(posts[0].video_platform, VideoPlatform::RedGifs);
    assert_eq!(posts[0].gif_file_name(), Some("g1.mp4".to_string()));
    assert!(!posts[1].is_gif);
}

#[test]
fn classification_from_parsed_value() {
    let v: serde_json::Value = serde_json::from_str(&feed(&[child(IMAGE_POST)])).unwrap();
    let posts = fetch_posts_from_value(&v).unwrap();
    assert_eq!(posts[0].title, "t");
}

#[test]
fn classify_items_directly() {
    let item = FeedItem {
        is_submitter: false,
        title: Some("t".to_string()),
        permalink: Some("/p".to_string()),
        id: Some("i".to_string()),
        dest_url: Some("https://imgur.com/a".to_string()),
        is_video: Some(false),
        post_hint: None,
        has_gif_marker: false,
    };
    let mut self_post = item.clone();
    self_post.is_submitter = true;
    self_post.title = None;
    let posts = classify_items(&vec![self_post, item.clone()]).unwrap();
    assert_eq!(posts.len(), 1);
    assert_eq!(posts[0].video_platform, VideoPlatform::Imgur);
    let mut broken = item;
    broken.id = None;
    assert_eq!(classify_items(&vec![broken]).unwrap_err(), FeedError::MalformedItem(0));
}

#[test]
fn hints() {
    assert!(check_if_image("image"));
    assert!(!check_if_link("image"));
    assert!(check_if_link("link"));
    assert!(!check_if_image("link"));
    assert!(!check_if_image("hosted:video") && !check_if_link("hosted:video"));
    assert!(!check_if_image("") && !check_if_link(""));
    assert!(!check_if_image("images"));
}

#[test]
fn feed_addresses() {
    assert_eq!(feed_url("someone", None), "https://www.reddit.com/user/someone.json");
    assert_eq!(
        feed_url("someone", Some("t3_xyz")),
        "https://www.reddit.com/user/someone.json?after=t3_xyz"
    );
}

#[test]
fn after_cursor() {
    let v: serde_json::Value = serde_json::from_str("{\"data\":{\"after\":\"t3_q\",\"children\":[]}}").unwrap();
    assert_eq!(get_after_value(&v), Some("t3_q".to_string()));
    let v: serde_json::Value = serde_json::from_str("{\"data\":{\"after\":null,\"children\":[]}}").unwrap();
    assert_eq!(get_after_value(&v), None);
}
