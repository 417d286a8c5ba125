use faircamp::asset::{Asset, Timestamp};
use faircamp::cache::{
    cache_entry_action, find_procedural_cover, get_or_create_archives, maintain_procedural_cover, Archives, maintain_versions, manifest_kind, report_stale_archives,
    report_stale, report_stale_images, stale_report, CacheEntryAction, CacheManifestKind, CacheOptimization, CacheView, CachedImage,
    CACHE_VERSION_MARKER,
};
use faircamp::fair_dir::EntryKind;
use faircamp::cover_generator::{ProceduralCover, ProceduralCoverAsset};
use faircamp::image::{ArtistAsset, ArtistAssets, CoverAsset, CoverAssets, FeedImageAsset};

const DAY: i64 = 24 * 60 * 60 * 1_000_000;

fn asset(name: &str, stale_since: Option<i64>) -> Asset {
    Asset {
        filename: String::from(name),
        filesize_bytes: 10,
        marked_stale: stale_since.map(|micros| Timestamp { micros }),
    }
}

#[test]
fn versions_obsolete_after_a_day_are_removed() {
    let now = Timestamp { micros: 10 * DAY };
    let versions = vec![
        ("mp3", asset("a.mp3", Some(8 * DAY))),
        ("flac", asset("a.flac", None)),
        ("opus", asset("a.opus", Some(10 * DAY - 5))),
    ];
    let (kept, maintenance) = maintain_versions(versions, CacheOptimization::Delayed, now);
    let kept_formats: Vec<&str> = kept.iter().map(|(format, _)| *format).collect();
    assert_eq!(kept_formats, vec!["flac", "opus"]);
    assert_eq!(maintenance.removed_files, vec![String::from("a.mp3")]);
    assert!(maintenance.keep_container);
}

#[test]
fn immediate_optimization_removes_every_stale_version() {
    let now = Timestamp { micros: DAY };
    let versions = vec![(1u8, asset("x", Some(DAY))), (2u8, asset("y", Some(DAY)))];
    let (kept, maintenance) = maintain_versions(versions, CacheOptimization::Immediate, now);
    assert!(kept.is_empty());
    assert_eq!(maintenance.removed_files, vec![String::from("x"), String::from("y")]);
    assert!(!maintenance.keep_container);
}

#[test]
fn manual_optimization_removes_nothing() {
    let now = Timestamp { micros: 100 * DAY };
    let versions = vec![(1u8, asset("x", Some(0)))];
    let (kept, maintenance) = maintain_versions(versions, CacheOptimization::Manual, now);
    assert_eq!(kept.len(), 1);
    assert!(maintenance.removed_files.is_empty());
}

fn procedural(stale_since: Option<i64>) -> ProceduralCover {
    let part = |name: &str| ProceduralCoverAsset { filename: String::from(name), filesize_bytes: 1 };
    ProceduralCover {
        asset_120: part("p120"),
        asset_240: part("p240"),
        asset_480: part("p480"),
        asset_720: part("p720"),
        marked_stale: stale_since.map(|micros| Timestamp { micros }),
        signature: 7,
    }
}

#[test]
fn procedural_cover_maintenance() {
    let now = Timestamp { micros: 5 * DAY };
    let stale = maintain_procedural_cover(&procedural(Some(DAY)), CacheOptimization::Default, now);
    assert_eq!(stale.removed_files, vec!["p120", "p240", "p480", "p720"]);
    assert!(!stale.keep_container);
    let fresh = maintain_procedural_cover(&procedural(None), CacheOptimization::Default, now);
    assert!(fresh.removed_files.is_empty());
    assert!(fresh.keep_container);
}

fn cover(edge: u32) -> CoverAsset {
    CoverAsset { edge_size: edge, filename: format!("c{edge}"), filesize_bytes: 1 }
}

#[test]
fn image_maintenance_removes_obsolete_versions_and_views() {
    let now = Timestamp { micros: 3 * DAY };
    let mut image = CachedImage {
        artist_assets: None,
        background_asset: Some(asset("bg", Some(0))),
        cover_assets: Some(CoverAssets {
            marked_stale: Some(Timestamp { micros: 0 }),
            max_160: cover(160),
            max_320: Some(cover(320)),
            max_480: None,
            max_800: None,
            max_1280: None,
        }),
        feed_asset: Some(FeedImageAsset { edge_size: 900, filename: String::from("feed"), filesize_bytes: 1, marked_stale: None }),
        views: vec![
            CacheView { path: String::from("old/cover.jpg"), marked_stale: Some(Timestamp { micros: 0 }) },
            CacheView { path: String::from("new/cover.jpg"), marked_stale: None },
        ],
    };
    let maintenance = image.maintain(CacheOptimization::Delayed, now);
    assert_eq!(maintenance.removed_files, vec!["bg", "c160", "c320"]);
    assert!(maintenance.keep_container);
    assert!(image.background_asset.is_none());
    assert!(image.cover_assets.is_none());
    assert!(image.feed_asset.is_some());
    assert_eq!(image.views.len(), 1);
    assert_eq!(image.views[0].path, "new/cover.jpg");
}

#[test]
fn image_maintenance_without_remaining_versions_drops_the_entry() {
    let now = Timestamp { micros: 3 * DAY };
    let mut image = CachedImage {
        artist_assets: None,
        background_asset: Some(asset("bg", Some(0))),
        cover_assets: None,
        feed_asset: None,
        views: Vec::new(),
    };
    let maintenance = image.maintain(CacheOptimization::Default, now);
    assert_eq!(maintenance.removed_files, vec!["bg"]);
    assert!(!maintenance.keep_container);
}

fn artist_asset(name: &str, size: u64) -> ArtistAsset {
    ArtistAsset { filename: String::from(name), filesize_bytes: size, format: String::from("fixed"), height: 1, width: 1 }
}

#[test]
fn stale_image_files_are_reported_one_by_one() {
    let stale = Some(Timestamp { micros: DAY });
    let image = CachedImage {
        artist_assets: Some(ArtistAssets {
            fixed_max_320: artist_asset("f320", 100),
            fixed_max_480: Some(artist_asset("f480", 200)),
            fixed_max_640: None,
            fluid_max_640: artist_asset("l640", 300),
            fluid_max_960: None,
            fluid_max_1280: None,
            marked_stale: stale,
        }),
        background_asset: Some(Asset { filename: String::from("bg"), filesize_bytes: 7, marked_stale: stale }),
        cover_assets: Some(CoverAssets {
            marked_stale: None,
            max_160: cover(160),
            max_320: None,
            max_480: None,
            max_800: None,
            max_1280: None,
        }),
        feed_asset: Some(FeedImageAsset { edge_size: 480, filename: String::from("feed"), filesize_bytes: 11, marked_stale: None }),
        views: Vec::new(),
    };
    let mut num_unused: u32 = 2;
    let mut unused_bytesize: u64 = 1000;
    report_stale_images(&image, &mut num_unused, &mut unused_bytesize);
    assert_eq!(num_unused, 2 + 1 + 3);
    assert_eq!(unused_bytesize, 1000 + 7 + 100 + 200 + 300);
}

#[test]
fn stale_archives_are_reported() {
    let archives = vec![asset("a.zip", Some(DAY)), asset("b.zip", None), asset("c.zip", Some(0))];
    let mut num_unused: u32 = 0;
    let mut unused_bytesize: u64 = 0;
    report_stale_archives(&archives, &mut num_unused, &mut unused_bytesize);
    assert_eq!(num_unused, 2);
    assert_eq!(unused_bytesize, 20);
}

#[test]
fn cache_manifests_by_name() {
    assert_eq!(manifest_kind("AbC-_.archives1.bincode", "transcodes9"), CacheManifestKind::Archives);
    assert_eq!(manifest_kind("AbC.image2.bincode", "transcodes9"), CacheManifestKind::Image);
    assert_eq!(manifest_kind("x.procedural_cover1.bincode", "transcodes9"), CacheManifestKind::ProceduralCover);
    assert_eq!(manifest_kind("x.transcodes9.bincode", "transcodes9"), CacheManifestKind::Transcodes);
    assert_eq!(manifest_kind("x.image1.bincode", "transcodes9"), CacheManifestKind::Incompatible);
    assert_eq!(manifest_kind("x.transcodes8.bincode", "transcodes9"), CacheManifestKind::Incompatible);
    assert_eq!(manifest_kind(".image2.bincode", "t"), CacheManifestKind::Image);
}

#[test]
fn cache_directory_entries() {
    assert_eq!(CACHE_VERSION_MARKER, "cache1.marker");
    assert_eq!(cache_entry_action(EntryKind::Dir, "old"), CacheEntryAction::RemoveIncompatibleDir);
    assert_eq!(cache_entry_action(EntryKind::File, "x.image2.bincode"), CacheEntryAction::Manifest);
    assert_eq!(cache_entry_action(EntryKind::File, "cache1.marker"), CacheEntryAction::VersionMarker);
    assert_eq!(cache_entry_action(EntryKind::File, "abc123"), CacheEntryAction::Asset);
    assert_eq!(cache_entry_action(EntryKind::File, "bincode"), CacheEntryAction::Asset);
    assert_eq!(cache_entry_action(EntryKind::Symlink, "l"), CacheEntryAction::IgnoreUnsupported);
    assert_eq!(cache_entry_action(EntryKind::Other, "p"), CacheEntryAction::IgnoreUnsupported);
    assert_eq!(cache_entry_action(EntryKind::Unknown, "u"), CacheEntryAction::Skip);
}

#[test]
fn stale_data_report() {
    let archives = vec![vec![asset("a", Some(DAY)), asset("b", None)]];
    let images = vec![CachedImage {
        artist_assets: None,
        background_asset: Some(Asset { filename: String::from("bg"), filesize_bytes: 5, marked_stale: Some(Timestamp { micros: 1 }) }),
        cover_assets: None,
        feed_asset: None,
        views: Vec::new(),
    }];
    let covers = vec![procedural(Some(DAY)), procedural(None)];
    let transcodes = vec![vec![asset("t1", Some(0)), asset("t2", Some(0))], Vec::new()];
    assert_eq!(report_stale(&archives, &images, &covers, &transcodes), (1 + 1 + 1 + 2, 10 + 5 + 4 + 20));
    assert_eq!(report_stale(&Vec::new(), &Vec::new(), &Vec::new(), &Vec::new()), (0, 0));
    assert_eq!(
        stale_report(5, "1.2 MB"),
        "5 cached assets were identified as obsolete - you can run 'faircamp --optimize-cache' to remove them and reclaim 1.2 MB of disk space."
    );
    assert_eq!(stale_report(0, "0 B"), "No cached assets identified as obsolete.");
}

#[test]
fn archives_are_found_by_signature() {
    let mut archives: Vec<Archives<&str>> = Vec::new();
    assert_eq!(get_or_create_archives(&mut archives, 7), 0);
    archives[0].formats.push(("mp3", asset("a.zip", None)));
    assert_eq!(get_or_create_archives(&mut archives, 9), 1);
    assert_eq!(get_or_create_archives(&mut archives, 7), 0);
    assert_eq!(get_or_create_archives(&mut archives, 9), 1);
    assert_eq!(archives.len(), 2);
    assert_eq!(archives[0].formats.len(), 1);
    assert!(archives[1].formats.is_empty());
    let fresh = Archives::<&str>::new(3);
    assert_eq!((fresh.signature, fresh.formats.len()), (3, 0));
}

#[test]
fn procedural_covers_are_found_by_signature() {
    let mut covers = vec![procedural(None), procedural(Some(DAY))];
    covers[1].signature = 11;
    assert_eq!(find_procedural_cover(&covers, 11), Some(1));
    assert_eq!(find_procedural_cover(&covers, 7), Some(0));
    assert_eq!(find_procedural_cover(&covers, 8), None);
}

#[test]
fn marking_everything_stale_then_immediate_maintenance_removes_the_image() {
    let earlier = Timestamp { micros: 5 };
    let now = Timestamp { micros: 2 * DAY };
    let mut image = CachedImage {
        artist_assets: None,
        background_asset: Some(asset("bg", Some(1))),
        cover_assets: Some(CoverAssets {
            marked_stale: None,
            max_160: cover(160),
            max_320: None,
            max_480: None,
            max_800: None,
            max_1280: None,
        }),
        feed_asset: Some(FeedImageAsset { edge_size: 9, filename: String::from("feed"), filesize_bytes: 1, marked_stale: None }),
        views: vec![
            CacheView { path: String::from("a.jpg"), marked_stale: None },
            CacheView { path: String::from("b.jpg"), marked_stale: Some(Timestamp { micros: 2 }) },
        ],
    };
    image.mark_all_stale(&earlier);
    assert_eq!(image.background_asset.as_ref().unwrap().marked_stale, Some(Timestamp { micros: 1 }));
    assert_eq!(image.cover_assets.as_ref().unwrap().marked_stale, Some(earlier));
    assert_eq!(image.feed_asset.as_ref().unwrap().marked_stale, Some(earlier));
    assert_eq!(image.views[0].marked_stale, Some(earlier));
    assert_eq!(image.views[1].marked_stale, Some(Timestamp { micros: 2 }));
    assert_eq!(image.views[0].path, "a.jpg");
    let maintenance = image.maintain(CacheOptimization::Immediate, now);
    assert!(!maintenance.keep_container);
    assert_eq!(maintenance.removed_files, vec!["bg", "feed", "c160"]);
    assert!(image.views.is_empty());
}

#[test]
fn marking_archives_stale() {
    let mut archives = Archives { formats: vec![("mp3", asset("a", None)), ("flac", asset("b", Some(3)))], signature: 4 };
    archives.mark_all_stale(&Timestamp { micros: 9 });
    assert_eq!(archives.signature, 4);
    assert_eq!(archives.formats[0].0, "mp3");
    assert_eq!(archives.formats[0].1.marked_stale, Some(Timestamp { micros: 9 }));
    assert_eq!(archives.formats[1].1.marked_stale, Some(Timestamp { micros: 3 }));
    assert_eq!(archives.formats[1].1.filename, "b");
}
