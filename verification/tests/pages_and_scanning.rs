use std::path::PathBuf;

use faircamp::asset::Timestamp;
use faircamp::downloads::{download_assets_available, needs_release_archives, DownloadAccessOption, ExtraDownloads};
use faircamp::fair_dir::{EntryFacts, EntryKind, EntryOutcome, FairDir};
use faircamp::favicon::Favicon;
use faircamp::feeds::{Feeds, ATOM_FILENAME, GENERIC_RSS_FILENAME, MEDIA_RSS_FILENAME, PODCAST_RSS_FILENAME};
use faircamp::heuristic_audio_meta::{CommonSeparatorPattern, HeuristicAudioMeta, SeparatorPattern};
use faircamp::image::{ArtistAsset, ArtistAssets, CoverAsset, CoverAssets, FeedImageAsset, ImgAttributes};
use faircamp::link::{pretty_display, Link};
use faircamp::opengraph::{OpenGraphImage, OpenGraphMeta};

fn stems(names: &[&str]) -> Vec<String> {
    names.iter().map(|s| s.to_string()).collect()
}

fn titles_and_numbers(metas: &[HeuristicAudioMeta]) -> Vec<(u32, String)> {
    metas.iter().map(|m| (m.track_number, m.title.clone())).collect()
}

#[test]
fn heuristic_space_dash_space() {
    let metas = HeuristicAudioMeta::compute(&stems(&["01 - Foo", "02 - Bar", "03 - Baz"])).unwrap();
    assert_eq!(
        titles_and_numbers(&metas),
        vec![(1, "Foo".to_string()), (2, "Bar".to_string()), (3, "Baz".to_string())]
    );
}

#[test]
fn heuristic_numbers_in_any_order_from_zero() {
    let metas = HeuristicAudioMeta::compute(&stems(&["2. Two", "0. Zero", "1. One"])).unwrap();
    assert_eq!(
        titles_and_numbers(&metas),
        vec![(2, "Two".to_string()), (0, "Zero".to_string()), (1, "One".to_string())]
    );
}

#[test]
fn heuristic_rejects_bad_numbering() {
    assert!(HeuristicAudioMeta::compute(&stems(&["02 A", "03 B"])).is_none());
    assert!(HeuristicAudioMeta::compute(&stems(&["01 A", "03 B"])).is_none());
    assert!(HeuristicAudioMeta::compute(&stems(&["01 A", "01 B"])).is_none());
    assert!(HeuristicAudioMeta::compute(&stems(&["Intro", "02 B"])).is_none());
    assert!(HeuristicAudioMeta::compute(&stems(&["01", "02 B"])).is_none());
}

#[test]
fn heuristic_requires_agreement() {
    // two files: both must agree
    assert!(HeuristicAudioMeta::compute(&stems(&["1. A", "2 - B"])).is_none());
    // four files: all but one must agree
    let metas = HeuristicAudioMeta::compute(&stems(&["1. A", "2. B", "3 - C", "4. D"])).unwrap();
    assert_eq!(metas[2].title, "- C");
    assert!(HeuristicAudioMeta::compute(&stems(&["1. A", "2. B", "3 - C", "4 - D"])).is_none());
}

#[test]
fn separator_tally_and_determination() {
    let mut tally = CommonSeparatorPattern::new();
    assert_eq!(tally.determine(), None);
    tally.add(" - x");
    tally.add("-x");
    assert_eq!(tally.determine(), Some(SeparatorPattern::SpaceDashSpace));
    tally.add(": x");
    assert_eq!(tally.determine(), Some(SeparatorPattern::SpaceDashSpace));
    tally.add("x");
    assert_eq!(tally.determine(), None);
}

#[test]
fn separator_trimming() {
    assert_eq!(SeparatorPattern::SpaceDashSpace.trim_separator_prefix(" - Example Song"), "Example Song");
    assert_eq!(SeparatorPattern::SpaceDashSpace.trim_separator_prefix("  Example"), "Example");
    assert_eq!(SeparatorPattern::ColonSpace.trim_separator_prefix(":  Song"), "Song");
    assert_eq!(SeparatorPattern::ColonSpace.trim_separator_prefix(" Song"), "Song");
    assert_eq!(SeparatorPattern::DotSpace.trim_separator_prefix(". Song"), "Song");
    assert_eq!(SeparatorPattern::Space.trim_separator_prefix("   Song"), "Song");
    assert_eq!(SeparatorPattern::Unseparated.trim_separator_prefix("Song"), "Song");
    let meta = HeuristicAudioMeta::new(String::from("T"), 4);
    assert_eq!((meta.title.as_str(), meta.track_number), ("T", 4));
}

#[test]
fn links() {
    assert_eq!(pretty_display("https://example.com/"), "example.com");
    assert_eq!(pretty_display("http://example.com/a/"), "example.com/a");
    assert_eq!(pretty_display("ftp://x"), "ftp://x");
    assert_eq!(pretty_display(""), "");
    match Link::url("https://alice.example/") {
        Link::Full { hidden, label, rel_me, url } => {
            assert!(!hidden && !rel_me);
            assert_eq!(label, "alice.example");
            assert_eq!(url, "https://alice.example/");
        }
        _ => panic!("expected a full link"),
    }
    match Link::full(true, Some(String::from("Me")), true, String::from("https://me.example")) {
        Link::Full { hidden, label, rel_me, .. } => {
            assert!(hidden && rel_me);
            assert_eq!(label, "Me");
        }
        _ => panic!("expected a full link"),
    }
    match Link::full(false, None, false, String::from("http://b.example/")) {
        Link::Full { label, .. } => assert_eq!(label, "b.example"),
        _ => panic!("expected a full link"),
    }
    match Link::anchor(String::from("#top"), String::from("Top")) {
        Link::Anchor { id, label } => assert_eq!((id.as_str(), label.as_str()), ("#top", "Top")),
        _ => panic!("expected an anchor"),
    }
}

fn artist_asset(format: &str, width: u32, height: u32) -> ArtistAsset {
    ArtistAsset { filename: String::from("cache.jpg"), filesize_bytes: 10, format: format.to_string(), height, width }
}

fn cover(edge_size: u32) -> CoverAsset {
    CoverAsset { edge_size, filename: String::from("cache.jpg"), filesize_bytes: edge_size as u64 }
}

#[test]
fn artist_image_attributes() {
    let assets = ArtistAssets {
        fixed_max_320: artist_asset("fixed", 320, 160),
        fixed_max_480: Some(artist_asset("fixed", 480, 240)),
        fixed_max_640: None,
        fluid_max_640: artist_asset("fluid", 640, 200),
        fluid_max_960: None,
        fluid_max_1280: None,
        marked_stale: None,
    };
    assert_eq!(assets.fixed_max_320.target_filename(), "image_fixed_320x160.jpg");
    let attributes = assets.img_attributes_fixed("h", "../");
    assert_eq!(attributes.src, "../image_fixed_480x240.jpg?h");
    assert_eq!(
        attributes.srcset,
        "../image_fixed_320x160.jpg?h 320w,../image_fixed_480x240.jpg?h 480w"
    );
    let fluid = assets.img_attributes_fluid("h", "");
    assert_eq!(fluid.src, "image_fluid_640x200.jpg?h");
    assert_eq!(fluid.srcset, "image_fluid_640x200.jpg?h 640w");
    assert_eq!(assets.all().len(), 3);
    assert_eq!(assets.opengraph_asset().width, 480);
    assert_eq!(assets.playlist_image(), "image_fixed_480x240.jpg");
    let empty = ImgAttributes::new_for_artist(Vec::new(), "h", "p");
    assert_eq!((empty.src.as_str(), empty.srcset.as_str()), ("", ""));
}

#[test]
fn artist_assets_staleness() {
    let mut assets = ArtistAssets {
        fixed_max_320: artist_asset("fixed", 320, 160),
        fixed_max_480: None,
        fixed_max_640: None,
        fluid_max_640: artist_asset("fluid", 640, 200),
        fluid_max_960: Some(artist_asset("fluid", 960, 300)),
        fluid_max_1280: None,
        marked_stale: None,
    };
    assert_eq!(assets.opengraph_asset().width, 960);
    assert_eq!(assets.playlist_image(), "image_fixed_320x160.jpg");
    assets.mark_stale(&Timestamp { micros: 1 });
    assets.mark_stale(&Timestamp { micros: 2 });
    assert!(assets.is_stale());
    assert_eq!(assets.marked_stale, Some(Timestamp { micros: 1 }));
    assets.unmark_stale();
    assert!(!assets.is_stale());
}

#[test]
fn cover_image_attributes() {
    let mut assets = CoverAssets {
        marked_stale: None,
        max_160: cover(160),
        max_320: Some(cover(320)),
        max_480: Some(cover(480)),
        max_800: None,
        max_1280: Some(cover(1280)),
    };
    assert_eq!(cover(480).target_filename(), "cover_480.jpg");
    let up_to_320 = assets.img_attributes_up_to_320("x", "");
    assert_eq!(up_to_320.src, "cover_320.jpg?x");
    assert_eq!(up_to_320.srcset, "cover_160.jpg?x 160w,cover_320.jpg?x 320w");
    let up_to_480 = assets.img_attributes_up_to_480("x", "a/");
    assert_eq!(up_to_480.src, "a/cover_480.jpg?x");
    let all = assets.img_attributes_up_to_1280("x", "");
    assert_eq!(all.src, "cover_1280.jpg?x");
    assert_eq!(assets.all().len(), 4);
    assert_eq!(assets.largest().edge_size, 1280);
    assert_eq!(assets.opengraph_asset().edge_size, 480);
    assert_eq!(assets.playlist_image(), "cover_480.jpg");
    assets.max_320 = None;
    let nested = assets.img_attributes_up_to_480("x", "");
    assert_eq!(nested.srcset, "cover_160.jpg?x 160w");
    assets.mark_stale(&Timestamp { micros: 4 });
    assert!(assets.is_stale());
    assets.unmark_stale();
    assert!(!assets.is_stale());
}

#[test]
fn feed_image_asset() {
    let mut asset = FeedImageAsset::new(920, String::from("c.jpg"), 99);
    assert_eq!(FeedImageAsset::target_filename(), "feed.jpg");
    assert!(!asset.is_stale());
    asset.mark_stale(&Timestamp { micros: 1 });
    assert!(asset.is_stale());
    asset.unmark_stale();
    assert!(!asset.is_stale());
}

fn facts(name: &str, path: &str, extension: Option<&str>, kind: EntryKind) -> EntryFacts {
    EntryFacts {
        file_name: Some(name.to_string()),
        path_str: Some(path.to_string()),
        extension: extension.map(|e| e.to_string()),
        kind,
        is_special_dir: false,
    }
}

#[test]
fn scanning_directory_entries() {
    let mut dir = FairDir::new(PathBuf::from("/c"));
    let none: Vec<String> = Vec::new();
    let excludes = vec![String::from("drafts")];
    let outcome = dir.add_entry(PathBuf::from("/c/.git"), &facts(".git", "/c/.git", None, EntryKind::Dir), &none, &none);
    assert!(matches!(outcome, EntryOutcome::HiddenIgnored));
    let outcome = dir.add_entry(PathBuf::from("/c/a"), &facts("a", "/c/a", None, EntryKind::Dir), &none, &none);
    assert!(matches!(outcome, EntryOutcome::DirAdded));
    let outcome = dir.add_entry(PathBuf::from("/c/drafts"), &facts("drafts", "/c/drafts", None, EntryKind::Dir), &excludes, &none);
    assert!(matches!(outcome, EntryOutcome::DirExcluded { ref pattern } if pattern == "drafts"));
    let outcome = dir.add_entry(PathBuf::from("/c/1.MP3"), &facts("1.MP3", "/c/1.MP3", Some("MP3"), EntryKind::File), &none, &none);
    assert!(matches!(outcome, EntryOutcome::AudioFile));
    let outcome = dir.add_entry(PathBuf::from("/c/c.jpg"), &facts("c.jpg", "/c/c.jpg", Some("jpg"), EntryKind::File), &none, &none);
    assert!(matches!(outcome, EntryOutcome::ImageFile));
    let outcome = dir.add_entry(PathBuf::from("/c/x.m4a"), &facts("x.m4a", "/c/x.m4a", Some("M4A"), EntryKind::File), &none, &none);
    assert!(matches!(outcome, EntryOutcome::UnsupportedAudio { ref extension } if extension == "m4a"));
    let outcome = dir.add_entry(PathBuf::from("/c/notes.txt"), &facts("notes.txt", "/c/notes.txt", Some("txt"), EntryKind::File), &none, &none);
    assert!(matches!(outcome, EntryOutcome::ExtraFile));
    let outcome = dir.add_entry(PathBuf::from("/c/README"), &facts("README", "/c/README", None, EntryKind::File), &none, &none);
    assert!(matches!(outcome, EntryOutcome::ExtraFile));
    let outcome = dir.add_entry(PathBuf::from("/c/release.eno"), &facts("release.eno", "/c/release.eno", Some("eno"), EntryKind::File), &none, &none);
    assert!(matches!(outcome, EntryOutcome::ReleaseManifest));
    let outcome = dir.add_entry(PathBuf::from("/c/relase.eno"), &facts("relase.eno", "/c/relase.eno", Some("eno"), EntryKind::File), &none, &none);
    assert!(matches!(outcome, EntryOutcome::UnrecognizedManifest));
    let outcome = dir.add_entry(PathBuf::from("/c/l"), &facts("l", "/c/l", None, EntryKind::Symlink), &none, &none);
    assert!(matches!(outcome, EntryOutcome::SymlinkIgnored));
    let includes = vec![String::from("keep")];
    let outcome = dir.add_entry(PathBuf::from("/c/other.txt"), &facts("other.txt", "/c/other.txt", Some("txt"), EntryKind::File), &none, &includes);
    assert!(matches!(outcome, EntryOutcome::FileNotIncluded));
    let outcome = dir.add_entry(PathBuf::from("/c/drafts.txt"), &facts("drafts.txt", "/c/drafts.txt", Some("txt"), EntryKind::File), &excludes, &none);
    assert!(matches!(outcome, EntryOutcome::FileExcluded { .. }));
    let mut special = facts("build", "/c/build", None, EntryKind::Dir);
    special.is_special_dir = true;
    let outcome = dir.add_entry(PathBuf::from("/c/build"), &special, &none, &none);
    assert!(matches!(outcome, EntryOutcome::SpecialDirIgnored));

    assert_eq!(dir.dirs, vec![PathBuf::from("/c/a")]);
    assert_eq!(dir.audio_files, vec![PathBuf::from("/c/1.MP3")]);
    assert_eq!(dir.image_files, vec![PathBuf::from("/c/c.jpg")]);
    assert_eq!(dir.extra_files, vec![PathBuf::from("/c/notes.txt"), PathBuf::from("/c/README")]);
    assert_eq!(dir.release_manifest, Some(PathBuf::from("/c/release.eno")));
    assert_eq!(dir.artist_manifest, None);
}

#[test]
fn reading_a_directory_scans_its_entries_in_order() {
    let entries = vec![
        (PathBuf::from("/r/02.flac"), facts("02.flac", "/r/02.flac", Some("flac"), EntryKind::File)),
        (PathBuf::from("/r/.hidden"), facts(".hidden", "/r/.hidden", None, EntryKind::File)),
        (PathBuf::from("/r/01.flac"), facts("01.flac", "/r/01.flac", Some("flac"), EntryKind::File)),
        (PathBuf::from("/r/bonus"), facts("bonus", "/r/bonus", None, EntryKind::Dir)),
        (PathBuf::from("/r/cover.png"), facts("cover.png", "/r/cover.png", Some("png"), EntryKind::File)),
        (PathBuf::from("/r/release.eno"), facts("release.eno", "/r/release.eno", Some("eno"), EntryKind::File)),
        (PathBuf::from("/r/skip.wav"), facts("skip.wav", "/r/skip.wav", Some("wav"), EntryKind::File)),
    ];
    let excludes = vec![String::from("skip")];
    let none: Vec<String> = Vec::new();
    let (dir, outcomes) = FairDir::read(PathBuf::from("/r"), entries, &excludes, &none);
    assert_eq!(outcomes.len(), 7);
    assert!(matches!(outcomes[0], EntryOutcome::AudioFile));
    assert!(matches!(outcomes[1], EntryOutcome::HiddenIgnored));
    assert!(matches!(outcomes[2], EntryOutcome::AudioFile));
    assert!(matches!(outcomes[3], EntryOutcome::DirAdded));
    assert!(matches!(outcomes[4], EntryOutcome::ImageFile));
    assert!(matches!(outcomes[5], EntryOutcome::ReleaseManifest));
    assert!(matches!(outcomes[6], EntryOutcome::FileExcluded { ref pattern } if pattern == "skip"));
    assert_eq!(dir.path, PathBuf::from("/r"));
    assert_eq!(dir.audio_files, vec![PathBuf::from("/r/02.flac"), PathBuf::from("/r/01.flac")]);
    assert_eq!(dir.dirs, vec![PathBuf::from("/r/bonus")]);
    assert_eq!(dir.image_files, vec![PathBuf::from("/r/cover.png")]);
    assert_eq!(dir.release_manifest, Some(PathBuf::from("/r/release.eno")));
    assert!(dir.extra_files.is_empty());
}

#[test]
fn favicons() {
    match Favicon::custom(PathBuf::from("/f.png"), Some(String::from("png"))) {
        Ok(Favicon::Custom { extension, .. }) => assert_eq!(extension, "png"),
        _ => panic!("expected a custom favicon"),
    }
    match Favicon::custom(PathBuf::from("/f.svg"), Some(String::from("svg"))) {
        Err(message) => assert_eq!(message, "Favicon file extension \"svg\" not supported (only .ico/.png is supported)"),
        _ => panic!("expected an error"),
    }
    match Favicon::custom(PathBuf::from("/f"), None) {
        Err(message) => assert_eq!(message, "Custom favicon file needs to have a file extension"),
        _ => panic!("expected an error"),
    }
}

#[test]
fn feeds_and_extras() {
    assert!(Feeds::all().any_requested());
    assert!(Feeds::default_feeds().atom && Feeds::default_feeds().generic_rss);
    assert!(!Feeds::disabled().any_requested());
    assert!(!Feeds::media_rss_only().any_requested());
    assert!(Feeds::podcast_rss_only().podcast_rss);
    assert!(Feeds::atom_only().atom && Feeds::generic_rss_only().generic_rss);
    assert_eq!(
        [ATOM_FILENAME, GENERIC_RSS_FILENAME, MEDIA_RSS_FILENAME, PODCAST_RSS_FILENAME],
        ["feed.atom", "feed.rss", "media.rss", "podcast.rss"]
    );
    assert_eq!(ExtraDownloads::bundled(), ExtraDownloads { bundled: true, separate: false });
    assert_eq!(ExtraDownloads::separate(), ExtraDownloads { bundled: false, separate: true });
    assert_eq!(ExtraDownloads::disabled(), ExtraDownloads { bundled: false, separate: false });
    let option = DownloadAccessOption::External { link: String::from("https://x") };
    assert!(matches!(option, DownloadAccessOption::External { .. }));
}

#[test]
fn opengraph_metadata() {
    let mut meta = OpenGraphMeta::new(String::from("Title"), String::from("https://x/"));
    meta.description("Desc");
    meta.image(OpenGraphImage { height: 10, url: String::from("i.jpg"), width: 20 });
    meta.image_alt("Alt");
}

#[test]
fn opengraph_images_of_assets() {
    let artist = ArtistAssets {
        fixed_max_320: artist_asset("fixed", 320, 160),
        fixed_max_480: None,
        fixed_max_640: Some(artist_asset("fixed", 640, 256)),
        fluid_max_640: artist_asset("fluid", 640, 200),
        fluid_max_960: None,
        fluid_max_1280: None,
        marked_stale: None,
    };
    let image = artist.opengraph_image("HaSh", "https://x.org/alice/");
    assert_eq!(image.url, "https://x.org/alice/image_fixed_640x256.jpg?HaSh");
    assert_eq!((image.width, image.height), (640, 256));
    let covers = CoverAssets {
        marked_stale: None,
        max_160: cover(160),
        max_320: Some(cover(320)),
        max_480: Some(cover(480)),
        max_800: None,
        max_1280: Some(cover(1280)),
    };
    let image = covers.opengraph_image("h", "../r/");
    assert_eq!(image.url, "../r/cover_480.jpg?h");
    assert_eq!((image.width, image.height), (480, 480));
}

#[test]
fn thumbnails() {
    let artist = ArtistAssets {
        fixed_max_320: artist_asset("fixed", 320, 128),
        fixed_max_480: None,
        fixed_max_640: None,
        fluid_max_640: artist_asset("fluid", 640, 200),
        fluid_max_960: None,
        fluid_max_1280: None,
        marked_stale: None,
    };
    assert_eq!(artist.thumbnail_image_src("h1"), "image_fixed_320x128.jpg?h1");
    let covers = CoverAssets { marked_stale: None, max_160: cover(150), max_320: None, max_480: None, max_800: None, max_1280: None };
    assert_eq!(covers.filename_160("h2"), "cover_150.jpg?h2");
}

#[test]
fn release_archives_decision() {
    assert!(download_assets_available(2, ExtraDownloads::disabled(), 0));
    assert!(!download_assets_available(0, ExtraDownloads::disabled(), 3));
    assert!(download_assets_available(0, ExtraDownloads::separate(), 3));
    assert!(download_assets_available(0, ExtraDownloads::bundled(), 1));
    assert!(!download_assets_available(0, ExtraDownloads::bundled(), 0));
    assert!(needs_release_archives(&DownloadAccessOption::Free, true));
    assert!(needs_release_archives(&DownloadAccessOption::Code, true));
    assert!(needs_release_archives(&DownloadAccessOption::Paycurtain, true));
    assert!(!needs_release_archives(&DownloadAccessOption::Free, false));
    assert!(!needs_release_archives(&DownloadAccessOption::Disabled, true));
    assert!(!needs_release_archives(&DownloadAccessOption::External { link: String::from("https://x.org") }, true));
}

#[test]
fn opengraph_tags_list_each_property_on_its_own_line() {
    let mut meta = OpenGraphMeta::new(String::from("Night Drive"), String::from("https://example.com/night-drive/"));
    assert_eq!(
        meta.tags("en", "Alice's Music"),
        "<meta property=\"og:locale\" content=\"en\"/>\n<meta property=\"og:site_name\" content=\"Alice&#39;s Music\"/>\n<meta property=\"og:title\" content=\"Night Drive\"/>\n<meta property=\"og:type\" content=\"website\"/>\n<meta property=\"og:url\" content=\"https://example.com/night-drive/\"/>"
    );
    meta.description("Late songs");
    meta.image(OpenGraphImage { height: 480, url: String::from("https://example.com/night-drive/cover_480.jpg"), width: 640 });
    meta.image_alt("A dark road");
    let tags = meta.tags("de", "Site");
    let lines: Vec<&str> = tags.split('\n').collect();
    assert_eq!(
        lines,
        vec![
            "<meta property=\"og:description\" content=\"Late songs\"/>",
            "<meta property=\"og:image\" content=\"https://example.com/night-drive/cover_480.jpg\"/>",
            "<meta property=\"og:image:height\" content=\"480\"/>",
            "<meta property=\"og:image:width\" content=\"640\"/>",
            "<meta property=\"og:image:alt\" content=\"A dark road\"/>",
            "<meta property=\"og:locale\" content=\"de\"/>",
            "<meta property=\"og:site_name\" content=\"Site\"/>",
            "<meta property=\"og:title\" content=\"Night Drive\"/>",
            "<meta property=\"og:type\" content=\"website\"/>",
            "<meta property=\"og:url\" content=\"https://example.com/night-drive/\"/>",
        ]
    );
}

#[test]
fn opengraph_tags_escape_their_texts() {
    let mut meta = OpenGraphMeta::new(String::from("\"Quotes\" & <Tags>"), String::from("https://example.com/q/"));
    meta.description("Rock 'n' Roll");
    let tags = meta.tags("en", "A&B");
    assert!(tags.contains("<meta property=\"og:description\" content=\"Rock &#39;n&#39; Roll\"/>"));
    assert!(tags.contains("<meta property=\"og:site_name\" content=\"A&amp;B\"/>"));
    assert!(tags.contains("<meta property=\"og:title\" content=\"&quot;Quotes&quot; &amp; &lt;Tags&gt;\"/>"));
}

#[test]
fn scanning_errors_name_the_file() {
    assert_eq!(
        faircamp::fair_dir::unrecognized_manifest_error("albm.eno", "music/albm.eno"),
        "A manifest named 'albm.eno' was encountered at 'music/albm.eno', but this name is not recognized (allowed ones are 'artist.eno', 'catalog.eno', 'release.eno', and 'track.eno')"
    );
    assert_eq!(
        faircamp::fair_dir::unsupported_audio_error("mid"),
        "Support for reading audio files with the extension 'mid' from the catalog is not yet supported - please get in touch if you need this"
    );
}
