use faircamp::audio_format::{AudioFormat, AudioFormatFamily};
use faircamp::audio_meta::{
    extract_multiple, extract_multiple_alternatives, extract_single, extract_track_number,
    parse_track_number_ignoring_total_tracks, trim_and_reject_empty, UserComments,
};
use faircamp::cache::{report_stale_procedural_cover, report_stale_transcodes, CacheOptimization};
use faircamp::asset::{Asset, AssetIntent, Timestamp};
use faircamp::cover_generator::{CoverGenerator, ProceduralCover, ProceduralCoverAsset};
use faircamp::locale::{Locale, TextDirection, TranslationSet};
use faircamp::text::{decimal, parse_u32_str, trim_str};

const ALL_FORMATS: [AudioFormat; 12] = [
    AudioFormat::Aac,
    AudioFormat::Aiff,
    AudioFormat::Alac,
    AudioFormat::Flac,
    AudioFormat::Mp3VbrV0,
    AudioFormat::Mp3VbrV5,
    AudioFormat::Mp3VbrV7,
    AudioFormat::OggVorbis,
    AudioFormat::Opus48Kbps,
    AudioFormat::Opus96Kbps,
    AudioFormat::Opus128Kbps,
    AudioFormat::Wav,
];

#[test]
fn asset_dirnames_of_formats() {
    assert_eq!(AudioFormat::Aac.asset_dirname(), "aac");
    assert_eq!(AudioFormat::Mp3VbrV0.asset_dirname(), "mp3-v0");
    assert_eq!(AudioFormat::Opus128Kbps.asset_dirname(), "opus-128");
    assert_eq!(AudioFormat::OggVorbis.asset_dirname(), "ogg");
}

#[test]
fn asset_dirnames_never_collide() {
    for (i, a) in ALL_FORMATS.iter().enumerate() {
        for (j, b) in ALL_FORMATS.iter().enumerate() {
            if i != j {
                assert_ne!(a.asset_dirname(), b.asset_dirname());
            }
        }
    }
}

#[test]
fn extensions_and_families() {
    assert_eq!(AudioFormat::Alac.extension(), ".m4a");
    assert_eq!(AudioFormat::Mp3VbrV7.extension(), ".mp3");
    assert_eq!(AudioFormat::Opus48Kbps.extension(), ".opus");
    assert_eq!(AudioFormat::Mp3VbrV5.family(), AudioFormatFamily::Mp3);
    assert_eq!(AudioFormat::Opus96Kbps.family(), AudioFormatFamily::Opus);
    assert_eq!(AudioFormat::Wav.family(), AudioFormatFamily::Wav);
    for a in ALL_FORMATS.iter() {
        for b in ALL_FORMATS.iter() {
            assert_eq!(a.family() == b.family(), a.extension() == b.extension());
        }
    }
}

#[test]
fn source_types_of_streaming_formats() {
    assert_eq!(AudioFormat::Mp3VbrV0.source_type(), "audio/mpeg");
    assert_eq!(AudioFormat::Opus128Kbps.source_type(), "audio/ogg; codecs=opus");
}

#[test]
fn format_labels() {
    assert_eq!(AudioFormat::Mp3VbrV0.label(), "MP3 V0");
    assert_eq!(AudioFormat::OggVorbis.label(), "Ogg Vorbis");
    assert_eq!(AudioFormat::Opus48Kbps.label(), "Opus 48");
    assert_eq!(AudioFormat::Wav.label(), "WAV");
}

#[test]
fn track_number_plain_and_with_total() {
    assert_eq!(parse_track_number_ignoring_total_tracks("01"), Some(1));
    assert_eq!(parse_track_number_ignoring_total_tracks("01/07"), Some(1));
    assert_eq!(parse_track_number_ignoring_total_tracks(" 12 / 20 "), Some(12));
    assert_eq!(parse_track_number_ignoring_total_tracks("01/boom"), Some(1));
    assert_eq!(parse_track_number_ignoring_total_tracks("+3"), Some(3));
}

#[test]
fn track_number_rejects_nonsense() {
    assert_eq!(parse_track_number_ignoring_total_tracks(""), None);
    assert_eq!(parse_track_number_ignoring_total_tracks("   "), None);
    assert_eq!(parse_track_number_ignoring_total_tracks("/07"), None);
    assert_eq!(parse_track_number_ignoring_total_tracks("boom"), None);
    assert_eq!(parse_track_number_ignoring_total_tracks("-1"), None);
    assert_eq!(parse_track_number_ignoring_total_tracks("4294967296"), None);
    assert_eq!(parse_track_number_ignoring_total_tracks("4294967295"), Some(4294967295));
}

#[test]
fn track_number_round_trip_with_total() {
    for n in [0u32, 1, 9, 10, 99, 100, 12345, u32::MAX] {
        let tag = format!("{}/{}", decimal(n as u64), "whatever ");
        assert_eq!(parse_track_number_ignoring_total_tracks(&tag), Some(n));
    }
}

#[test]
fn decimal_and_parse_agree() {
    for n in [0u32, 7, 10, 255, 65536, u32::MAX] {
        assert_eq!(decimal(n as u64), n.to_string());
        assert_eq!(parse_u32_str(&decimal(n as u64)), Some(n));
    }
    assert_eq!(decimal(u64::MAX), u64::MAX.to_string());
}

#[test]
fn trimming_matches_std() {
    for s in ["", "  a  ", "\u{a0}x\u{3000}", "\t\nab c\r\n", "no-space", "\u{2028}"] {
        assert_eq!(trim_str(s), s.trim());
    }
}

#[test]
fn trim_and_reject_empty_values() {
    assert_eq!(trim_and_reject_empty("  Alice "), Some(String::from("Alice")));
    assert_eq!(trim_and_reject_empty(" \t "), None);
    assert_eq!(trim_and_reject_empty(""), None);
}

fn comments() -> UserComments {
    let mut c = UserComments::new();
    c.insert(String::from("album"), String::from("  Greatest Hits "));
    c.insert(String::from("artist"), String::from("   "));
    c.insert(String::from("album artist"), String::from("The Band"));
    c.insert(String::from("tracknumber"), String::from("03/10"));
    c
}

#[test]
fn user_comments_replace_values() {
    let mut c = comments();
    c.insert(String::from("album"), String::from("Other"));
    assert_eq!(c.get("album").map(|s| s.as_str()), Some("Other"));
    assert_eq!(c.get("title"), None);
}

#[test]
fn extracting_user_comments() {
    let c = comments();
    assert_eq!(extract_single("album", &c), Some(String::from("Greatest Hits")));
    assert_eq!(extract_single("artist", &c), None);
    assert_eq!(extract_single("title", &c), None);
    assert_eq!(extract_multiple("album", &c), vec![String::from("Greatest Hits")]);
    assert!(extract_multiple("artist", &c).is_empty());
    assert_eq!(
        extract_multiple_alternatives(&["albumartist", "album artist"], &c),
        vec![String::from("The Band")]
    );
    assert!(extract_multiple_alternatives(&["artist", "composer"], &c).is_empty());
    assert_eq!(extract_track_number(&c), Some(3));
    assert_eq!(extract_track_number(&UserComments::new()), None);
}

#[test]
fn cache_optimization_keys() {
    assert_eq!(CacheOptimization::from_manifest_key("delayed"), Some(CacheOptimization::Delayed));
    assert_eq!(CacheOptimization::from_manifest_key("immediate"), Some(CacheOptimization::Immediate));
    assert_eq!(CacheOptimization::from_manifest_key("manual"), Some(CacheOptimization::Manual));
    assert_eq!(CacheOptimization::from_manifest_key("wipe"), Some(CacheOptimization::Wipe));
    assert_eq!(CacheOptimization::from_manifest_key("default"), None);
    assert_eq!(CacheOptimization::Delayed.label(), "Delayed");
    assert_eq!(CacheOptimization::Default.label(), "Default");
}

const DAY: i64 = 86_400_000_000;

#[test]
fn cache_obsolescence() {
    let begin = Timestamp { micros: 10 * DAY };
    let recent = Some(Timestamp { micros: 10 * DAY - DAY });
    let old = Some(Timestamp { micros: 10 * DAY - DAY - 1 });
    assert!(!CacheOptimization::Default.obsolete(begin, &recent));
    assert!(CacheOptimization::Default.obsolete(begin, &old));
    assert!(CacheOptimization::Delayed.obsolete(begin, &old));
    assert!(CacheOptimization::Immediate.obsolete(begin, &recent));
    assert!(CacheOptimization::Wipe.obsolete(begin, &recent));
    assert!(!CacheOptimization::Manual.obsolete(begin, &old));
    assert!(!CacheOptimization::Immediate.obsolete(begin, &None));
    let later = Timestamp { micros: 20 * DAY };
    assert!(CacheOptimization::Default.obsolete(later, &old));
    assert!(CacheOptimization::Default.obsolete(later, &recent));
    let extreme = Timestamp { micros: i64::MAX };
    assert!(CacheOptimization::Default.obsolete(extreme, &Some(Timestamp { micros: i64::MIN })));
}

#[test]
fn asset_staleness() {
    let begin = Timestamp { micros: 5 };
    let mut asset = Asset::new(String::from("a.opus"), 100, AssetIntent::Deliverable, &begin);
    assert!(!asset.is_stale());
    asset.mark_stale(&Timestamp { micros: 7 });
    asset.mark_stale(&Timestamp { micros: 9 });
    assert_eq!(asset.marked_stale, Some(Timestamp { micros: 7 }));
    asset.unmark_stale();
    assert!(!asset.is_stale());
    let intermediate = Asset::new(String::from("b.wav"), 1, AssetIntent::Intermediate, &begin);
    assert_eq!(intermediate.marked_stale, Some(begin));
}

#[test]
fn reporting_stale_transcodes() {
    let begin = Timestamp { micros: 0 };
    let assets = vec![
        Asset::new(String::from("a"), 100, AssetIntent::Intermediate, &begin),
        Asset::new(String::from("b"), 20, AssetIntent::Deliverable, &begin),
        Asset::new(String::from("c"), 3, AssetIntent::Intermediate, &begin),
    ];
    let mut count = 1u32;
    let mut bytes = 1000u64;
    report_stale_transcodes(&assets, &mut count, &mut bytes);
    assert_eq!(count, 3);
    assert_eq!(bytes, 1103);
}

fn cover_asset(size: u64) -> ProceduralCoverAsset {
    ProceduralCoverAsset { filename: String::from("x.png"), filesize_bytes: size }
}

#[test]
fn reporting_stale_procedural_cover() {
    let mut cover = ProceduralCover {
        asset_120: cover_asset(1),
        asset_240: cover_asset(2),
        asset_480: cover_asset(4),
        asset_720: cover_asset(8),
        marked_stale: None,
        signature: 42,
    };
    let mut count = 0u32;
    let mut bytes = 0u64;
    report_stale_procedural_cover(&cover, &mut count, &mut bytes);
    assert_eq!((count, bytes), (0, 0));
    cover.mark_stale(&Timestamp { micros: 3 });
    assert!(cover.is_stale());
    report_stale_procedural_cover(&cover, &mut count, &mut bytes);
    assert_eq!((count, bytes), (1, 15));
    cover.unmark_stale();
    assert!(!cover.is_stale());
}

#[test]
fn cover_generator_keys_round_trip() {
    let generators = [
        CoverGenerator::BestRillen,
        CoverGenerator::Blocks,
        CoverGenerator::GlassSplinters,
        CoverGenerator::LooneyTunes,
        CoverGenerator::ScratchyFaintRillen,
        CoverGenerator::SpaceTimeRupture,
    ];
    let keys = CoverGenerator::all_generators();
    assert_eq!(keys.len(), 6);
    for (key, generator) in keys.iter().zip(generators.iter()) {
        assert_eq!(CoverGenerator::from_manifest_key(key), Some(*generator));
    }
    assert_eq!(CoverGenerator::from_manifest_key("Blocks"), None);
    assert_eq!(CoverGenerator::BestRillen.name(), "Beste Rillen");
    assert_eq!(CoverGenerator::SpaceTimeRupture.name(), "Space Time Rupture");
}

#[test]
fn text_direction_by_language() {
    assert_eq!(TextDirection::from_code("he"), TextDirection::Rtl);
    assert_eq!(TextDirection::from_code("uz_AF"), TextDirection::Rtl);
    assert_eq!(TextDirection::from_code("yi"), TextDirection::Rtl);
    assert_eq!(TextDirection::from_code("en"), TextDirection::Ltr);
    assert_eq!(TextDirection::from_code("AR"), TextDirection::Ltr);
    assert!(TextDirection::Rtl.is_rtl());
    assert!(!TextDirection::Ltr.is_rtl());
}

#[test]
fn procedural_cover_images() {
    let part = |name: &str| ProceduralCoverAsset { filename: String::from(name), filesize_bytes: 1 };
    let cover = ProceduralCover {
        asset_120: part("a"),
        asset_240: part("b"),
        asset_480: part("c"),
        asset_720: part("d"),
        marked_stale: None,
        signature: 1,
    };
    assert_eq!(cover.filename_120("Xy"), "cover_120.png?Xy");
    assert_eq!(cover.filename_480("Xy"), "cover_480.png?Xy");
    assert_eq!(cover.filename_720("Xy"), "cover_720.png?Xy");
    let attributes = cover.img_attributes_all_sizes("Xy", "../");
    assert_eq!(attributes.src, "../cover_720.png?Xy");
    assert_eq!(
        attributes.srcset,
        "../cover_120.png?Xy 120w,../cover_240.png?Xy 240w,../cover_480.png?Xy 480w,../cover_720.png?Xy 720w"
    );
}

#[test]
fn locales_by_code() {
    let he = Locale::from_code("he");
    assert_eq!((he.language.as_str(), he.text_direction, he.translations), ("he", TextDirection::Rtl, TranslationSet::He));
    let pt = Locale::from_code("pt-pt");
    assert_eq!((pt.language.as_str(), pt.text_direction, pt.translations), ("pt-pt", TextDirection::Ltr, TranslationSet::PtPt));
    let ar = Locale::from_code("ar");
    assert_eq!((ar.language.as_str(), ar.text_direction, ar.translations), ("ar", TextDirection::Rtl, TranslationSet::En));
    let xx = Locale::from_code("xx");
    assert_eq!((xx.language.as_str(), xx.text_direction, xx.translations), ("xx", TextDirection::Ltr, TranslationSet::En));
    let d = Locale::default();
    assert_eq!((d.language.as_str(), d.translations), ("en", TranslationSet::En));
    assert_eq!(Locale::keys().translations, TranslationSet::Keys);
}

#[test]
fn manifest_key_gives_back_each_labelled_strategy() {
    for optimization in [CacheOptimization::Delayed, CacheOptimization::Immediate, CacheOptimization::Manual, CacheOptimization::Wipe] {
        let key = optimization.label().to_lowercase();
        assert!(matches!(CacheOptimization::from_manifest_key(&key), Some(o) if o == optimization));
    }
    assert!(CacheOptimization::from_manifest_key(&CacheOptimization::Default.label().to_lowercase()).is_none());
}

#[test]
fn locale_direction_is_that_of_its_code() {
    for code in ["ar", "he", "de", "ja", "uz_AF", "yi", "zh-hant-tw", "qq"] {
        let locale = Locale::from_code(code);
        assert_eq!(locale.language, code);
        assert!(locale.text_direction == TextDirection::from_code(code));
    }
}
