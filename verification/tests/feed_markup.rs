use faircamp::audio_format::AudioFormat;
use faircamp::feeds::artists_and_title;
use faircamp::feeds::atom::{atom, author, entry, AtomEntry, AtomFeed};
use faircamp::feeds::podcast_rss::{
    channel_extensions, item_extensions, ITUNES_NAMESPACE, PODCAST_NAMESPACE, PODCAST_NAMESPACE_UUID,
};
use faircamp::feeds::rss::{item, rss, RssChannel, RssImage, RssItem};

fn strings(items: &[&str]) -> Vec<String> {
    items.iter().map(|s| s.to_string()).collect()
}

#[test]
fn release_titles_in_feeds() {
    let main = strings(&["Alice", "Bob"]);
    let support = strings(&["Carol"]);
    assert_eq!(artists_and_title(&main, &support, true, "Dawn"), "Alice, Bob, Carol \u{2013} Dawn");
    assert_eq!(artists_and_title(&main, &support, false, "Dawn"), "Alice, Bob \u{2013} Dawn");
    assert_eq!(artists_and_title(&main, &Vec::new(), true, "Dawn"), "Alice, Bob \u{2013} Dawn");
}

#[test]
fn atom_authors() {
    assert_eq!(
        author("Alice", true, "https://x.org/alice/", &Some(String::from("https://alice.org"))),
        "<author>\n    <name>Alice</name>\n    <uri>https://x.org/alice/</uri>\n</author>\n"
    );
    assert_eq!(
        author("Bob", false, "https://x.org/bob/", &Some(String::from("https://bob.org"))),
        "<author>\n    <name>Bob</name>\n    <uri>https://bob.org</uri>\n</author>\n"
    );
    assert_eq!(author("Carol", false, "https://x.org/carol/", &None), "<author>\n    <name>Carol</name>\n    \n</author>\n");
}

fn atom_entry(show_support_artists: bool, synopsis: Option<&str>, more: Option<&str>) -> AtomEntry {
    AtomEntry {
        main_authors: strings(&["<author>A</author>\n"]),
        support_authors: strings(&["<author>S</author>\n"]),
        show_support_artists,
        release_url: String::from("https://x.org/r/"),
        title: String::from("A \u{2013} R & R"),
        synopsis: synopsis.map(|s| s.to_string()),
        more_html: more.map(|s| s.to_string()),
        updated: String::from("2025-01-02T03:04:05+00:00"),
    }
}

#[test]
fn atom_entries() {
    assert_eq!(
        entry(&atom_entry(true, Some("Short"), Some("<p>Long</p>"))),
        "<entry>\n    <author>A</author>\n\n<author>S</author>\n\n    <id>https://x.org/r/</id>\n    \
         <link href=\"https://x.org/r/\" rel=\"alternate\"/>\n    <title>A \u{2013} R &amp; R</title>\n    \
         <summary>Short</summary>\n    <updated>2025-01-02T03:04:05+00:00</updated>\n</entry>\n"
    );
    assert_eq!(
        entry(&atom_entry(false, None, Some("<p>Long</p>"))),
        "<entry>\n    <author>A</author>\n\n    <id>https://x.org/r/</id>\n    \
         <link href=\"https://x.org/r/\" rel=\"alternate\"/>\n    <title>A \u{2013} R &amp; R</title>\n    \
         <summary type=\"html\">&lt;p&gt;Long&lt;/p&gt;</summary>\n    <updated>2025-01-02T03:04:05+00:00</updated>\n</entry>\n"
    );
    assert_eq!(
        entry(&atom_entry(false, None, None)),
        "<entry>\n    <author>A</author>\n\n    <id>https://x.org/r/</id>\n    \
         <link href=\"https://x.org/r/\" rel=\"alternate\"/>\n    <title>A \u{2013} R &amp; R</title>\n    \
         \n    <updated>2025-01-02T03:04:05+00:00</updated>\n</entry>\n"
    );
}

fn atom_feed(label_mode: bool, logo: bool) -> AtomFeed {
    AtomFeed {
        label_mode,
        artist_name: Some(String::from("Alice")),
        version_detailed: String::from("1.2.3"),
        generator_info: String::from("Faircamp 1.2"),
        site_url: String::from("https://x.org/"),
        feed_url: String::from("https://x.org/feed.atom"),
        logo_url: if logo { Some(String::from("https://x.org/feed.jpg?h")) } else { None },
        synopsis: Some(String::from("Songs")),
        title: String::from("Alice"),
        updated: String::from("2025-01-02T03:04:05+00:00"),
    }
}

#[test]
fn atom_feeds() {
    let entries = strings(&["<entry>1</entry>\n", "<entry>2</entry>\n"]);
    assert_eq!(
        atom(&atom_feed(false, true), &entries),
        "<?xml version=\"1.0\" encoding=\"utf-8\"?>\n<feed xmlns=\"http://www.w3.org/2005/Atom\">\n    \
         <author>\n    <name>Alice</name>\n</author>\n\n    \
         <generator uri=\"https://simonrepp.com/faircamp\" version=\"1.2.3\">\n        Faircamp 1.2\n    </generator>\n    \
         <id>https://x.org/</id>\n    <link href=\"https://x.org/feed.atom\" rel=\"self\"/>\n    \
         <logo>https://x.org/feed.jpg?h</logo>\n    <subtitle>Songs</subtitle>\n    <title>Alice</title>\n    \
         <updated>2025-01-02T03:04:05+00:00</updated>\n    <entry>1</entry>\n\n<entry>2</entry>\n\n</feed>\n"
    );
    assert_eq!(
        atom(&atom_feed(true, false), &Vec::new()),
        "<?xml version=\"1.0\" encoding=\"utf-8\"?>\n<feed xmlns=\"http://www.w3.org/2005/Atom\">\n    \
         \n    \
         <generator uri=\"https://simonrepp.com/faircamp\" version=\"1.2.3\">\n        Faircamp 1.2\n    </generator>\n    \
         <id>https://x.org/</id>\n    <link href=\"https://x.org/feed.atom\" rel=\"self\"/>\n    \
         \n    <subtitle>Songs</subtitle>\n    <title>Alice</title>\n    \
         <updated>2025-01-02T03:04:05+00:00</updated>\n    \n</feed>\n"
    );
}

fn channel(synopsis: Option<&str>, more: Option<&str>, image: Option<RssImage>) -> RssChannel {
    RssChannel {
        feed_url: String::from("https://x.org/feed.rss"),
        synopsis_double_escaped: synopsis.map(|s| s.to_string()),
        more_html: more.map(|s| s.to_string()),
        version_display: String::from("1.2"),
        generator_info: String::from("Faircamp 1.2"),
        image,
        language: String::from("en"),
        last_build_date: String::from("Thu, 02 Jan 2025 03:04:05 +0000"),
        link: String::from("https://x.org/"),
        title_double_escaped: String::from("Alice"),
    }
}

#[test]
fn rss_channels() {
    let image = RssImage {
        edge_size: 480,
        url: String::from("https://x.org/feed.jpg?h"),
        description_double_escaped: None,
    };
    let namespaces = strings(&["xmlns:a=\"a\"", "xmlns:b=\"b\""]);
    let items = strings(&["<item>1</item>\n"]);
    assert_eq!(
        rss(&channel(None, None, Some(image)), &namespaces, "<ext/>", &items),
        "<?xml version=\"1.0\" encoding=\"UTF-8\"?>\n\
         <rss version=\"2.0\" xmlns:atom=\"http://www.w3.org/2005/Atom\" xmlns:a=\"a\" xmlns:b=\"b\">\n    <channel>\n        \
         <atom:link href=\"https://x.org/feed.rss\" rel=\"self\" type=\"application/rss+xml\"/>\n        \
         <description>Faircamp 1.2</description>\n        <generator>Faircamp 1.2</generator>\n        \
         <image>\n    <height>480</height>\n    <link>https://x.org/</link>\n    <title>Alice</title>\n    \
         <url>https://x.org/feed.jpg?h</url>\n    <width>480</width>\n</image>\n\n        \
         <language>en</language>\n        <lastBuildDate>Thu, 02 Jan 2025 03:04:05 +0000</lastBuildDate>\n        \
         <link>https://x.org/</link>\n        <title>Alice</title>\n        <ext/>\n        <item>1</item>\n\n    \
         </channel>\n</rss>\n"
    );
    let described = RssImage {
        edge_size: 64,
        url: String::from("u"),
        description_double_escaped: Some(String::from("A cat")),
    };
    assert_eq!(
        rss(&channel(Some("Syn"), Some("More"), Some(described)), &Vec::new(), "", &Vec::new()),
        "<?xml version=\"1.0\" encoding=\"UTF-8\"?>\n\
         <rss version=\"2.0\" xmlns:atom=\"http://www.w3.org/2005/Atom\" >\n    <channel>\n        \
         <atom:link href=\"https://x.org/feed.rss\" rel=\"self\" type=\"application/rss+xml\"/>\n        \
         <description>Syn</description>\n        <generator>Faircamp 1.2</generator>\n        \
         <image>\n    <height>64</height>\n    <link>https://x.org/</link>\n    <title>A cat</title>\n    \
         <url>u</url>\n    <width>64</width>\n</image>\n\n        \
         <language>en</language>\n        <lastBuildDate>Thu, 02 Jan 2025 03:04:05 +0000</lastBuildDate>\n        \
         <link>https://x.org/</link>\n        <title>Alice</title>\n        \n        \n    \
         </channel>\n</rss>\n"
    );
    let plain = rss(&channel(None, Some("More"), None), &Vec::new(), "", &Vec::new());
    assert!(plain.contains("<description>More</description>\n        <generator>Faircamp 1.2</generator>\n        \n        <language>"));
}

#[test]
fn rss_items() {
    let release = RssItem {
        synopsis_double_escaped: None,
        more_html: Some(String::from("<p>x</p>")),
        link: String::from("https://x.org/r/"),
        title_double_escaped: String::from("A \u{2013} R"),
    };
    assert_eq!(
        item(&release, ""),
        "<item>\n    <description>&lt;p&gt;x&lt;/p&gt;</description>\n    <guid>https://x.org/r/</guid>\n    \
         <link>https://x.org/r/</link>\n    <title>A \u{2013} R</title>\n    \n</item>\n"
    );
    let bare = RssItem { synopsis_double_escaped: None, more_html: None, ..release };
    assert_eq!(
        item(&bare, "<x/>"),
        "<item>\n    \n    <guid>https://x.org/r/</guid>\n    \
         <link>https://x.org/r/</link>\n    <title>A \u{2013} R</title>\n    <x/>\n</item>\n"
    );
}

#[test]
fn podcast_markup() {
    assert_eq!(PODCAST_NAMESPACE_UUID, "ead4c236-bf58-58c6-a2c6-a6b28d128cb6");
    assert_eq!(ITUNES_NAMESPACE, "xmlns:itunes=\"http://www.itunes.com/dtds/podcast-1.0.dtd\"");
    assert_eq!(PODCAST_NAMESPACE, "xmlns:podcast=\"https://podcastindex.org/namespace/1.0\"");
    assert_eq!(
        item_extensions(123456, AudioFormat::Mp3VbrV0, "https://x.org/r/1/mp3-v0/h/01.mp3", "185.5", "https://x.org/r/c.jpg?h"),
        "<enclosure length=\"123456\" type=\"audio/mpeg\" url=\"https://x.org/r/1/mp3-v0/h/01.mp3\"/>\n\
         <itunes:duration>185.5</itunes:duration>\n<itunes:image href=\"https://x.org/r/c.jpg?h\"/>"
    );
    assert_eq!(
        channel_extensions(false, &Some(String::from("Alice")), &Some(String::from("https://x.org/f.jpg?h")), "g-1"),
        "<itunes:author>Alice</itunes:author>\n<itunes:image href=\"https://x.org/f.jpg?h\"/>\n<podcast:guid>g-1</podcast:guid>"
    );
    assert_eq!(
        channel_extensions(true, &Some(String::from("Alice")), &None, "g-2"),
        "<podcast:guid>g-2</podcast:guid>"
    );
    assert_eq!(
        channel_extensions(false, &None, &Some(String::from("i")), "g-3"),
        "<itunes:image href=\"i\"/>\n<podcast:guid>g-3</podcast:guid>"
    );
}

#[test]
fn feed_names_and_texts_are_escaped() {
    assert_eq!(author("Tom & Jerry <3", false, "", &None), "<author>\n    <name>Tom &amp; Jerry &lt;3</name>\n    \n</author>\n");
    assert_eq!(
        channel_extensions(false, &Some(String::from("A&B")), &None, "g"),
        "<itunes:author>A&amp;B</itunes:author>\n<podcast:guid>g</podcast:guid>"
    );
}
