use std::path::PathBuf;

use faircamp::favicon::{Favicon, FaviconHashes};
use faircamp::feeds::Feeds;

const INDENT: &str = "                ";
const CLOSE: &str = "\n            ";

fn tag(mime: &str, title: &str, href: &str) -> String {
    format!("\n{INDENT}<link rel=\"alternate\" type=\"{mime}\" title=\"{title}\" href=\"{href}\">{CLOSE}")
}

#[test]
fn meta_link_tags_of_default_feeds() {
    let tags = Feeds::default_feeds().meta_link_tags("../", "RSS");
    let expected = format!(
        "{}\n{}",
        tag("application/atom+xml", "Atom", "../feed.atom"),
        tag("application/rss+xml", "RSS", "../feed.rss")
    );
    assert_eq!(tags, expected);
}

#[test]
fn meta_link_tags_of_podcast_feed_only() {
    let tags = Feeds::podcast_rss_only().meta_link_tags("", "RSS");
    assert_eq!(tags, tag("application/rss+xml", "Podcast RSS", "podcast.rss"));
}

#[test]
fn meta_link_tags_of_all_kinds() {
    let feeds = Feeds { atom: true, generic_rss: true, media_rss: true, podcast_rss: true };
    let tags = feeds.meta_link_tags("/", "Allgemeiner RSS");
    let expected = [
        tag("application/atom+xml", "Atom", "/feed.atom"),
        tag("application/rss+xml", "Allgemeiner RSS", "/feed.rss"),
        tag("application/rss+xml", "Media RSS", "/media.rss"),
        tag("application/rss+xml", "Podcast RSS", "/podcast.rss"),
    ]
    .join("\n");
    assert_eq!(tags, expected);
}

#[test]
fn meta_link_tags_without_feeds_are_empty() {
    assert_eq!(Feeds::disabled().meta_link_tags("../", "RSS"), "");
}

fn hashes(custom: Option<&str>) -> FaviconHashes {
    FaviconHashes {
        custom: custom.map(String::from),
        dark_png: String::from("d4rk"),
        light_png: String::from("l1ght"),
        svg: String::from("svgh"),
    }
}

#[test]
fn header_tags_of_custom_favicon() {
    let favicon = Favicon::custom(PathBuf::from("/site/favicon.png"), Some(String::from("png"))).unwrap();
    assert_eq!(
        favicon.header_tags(&hashes(Some("abc")), "../"),
        Some(String::from(r#"<link href="../favicon.png?abc" rel="icon">"#))
    );
}

#[test]
fn header_tags_of_default_favicon() {
    let expected = [
        r#"<link href="favicon.svg?svgh" rel="icon" type="image/svg+xml">"#,
        r#"<link href="favicon_light.png?l1ght" rel="icon" type="image/png" media="(prefers-color-scheme: light)">"#,
        r#"<link href="favicon_dark.png?d4rk" rel="icon" type="image/png"  media="(prefers-color-scheme: dark)">"#,
        "",
    ]
    .join("\n");
    assert_eq!(Favicon::Default.header_tags(&hashes(None), ""), Some(String::from(expected)));
}

#[test]
fn header_tags_without_favicon() {
    assert_eq!(Favicon::Disabled.header_tags(&hashes(None), "../"), None);
}
