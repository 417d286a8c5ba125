use faircamp::cover_generator::CoverGenerator;
use faircamp::downloads::{DownloadAccessOption, ExtraDownloads};
use faircamp::link::Link;
use faircamp::release_manifest::{ManifestAttribute, ManifestElement, SharedOverrides};
use faircamp::theme_option::{ThemeBase, ThemeFont, ThemeSettings};
use faircamp::track_options::{
    read_artist_catalog_release_option, read_artist_catalog_release_track_option, OptionRead, ReleaseOptionTargets, TrackOptionTargets,
};

fn element(key: &str, value: Option<&str>) -> ManifestElement {
    ManifestElement {
        key: key.to_string(),
        field_value: value.map(|v| Some(v.to_string())),
        field_items: None,
        field_attributes: None,
        embed_value: None,
        is_flag: false,
        line_number: 1,
        snippet: String::from("s"),
    }
}

fn targets() -> TrackOptionTargets {
    TrackOptionTargets {
        links: Vec::new(),
        more: None,
        overrides: SharedOverrides { copy_link: true, embedding: true, more_label: None, speed_controls: true, track_artists: Vec::new(), track_extras: true },
        payment_info: None,
        synopsis: None,
        theme: ThemeSettings {
            accent_brightening: 50,
            accent_chroma: None,
            accent_hue: None,
            background_alpha: 10,
            background_image: None,
            base: ThemeBase::Light,
            base_chroma: 0,
            base_hue: 0,
            cover_generator: CoverGenerator::LooneyTunes,
            dynamic_range: 0,
            font: ThemeFont::SystemSans,
            relative_waveforms: true,
            round_corners: false,
            waveforms: true,
        },
        track_access: DownloadAccessOption::Free,
        unlock_info: None,
        errors: Vec::new(),
        warnings: Vec::new(),
    }
}

fn read(t: &mut TrackOptionTargets, e: &ManifestElement) -> OptionRead {
    read_artist_catalog_release_track_option(e, "track.eno", &Some(String::from("https://me.org")), &Vec::new(), t)
}

fn embed(key: &str, value: Option<&str>) -> ManifestElement {
    let mut e = element(key, None);
    e.embed_value = Some(value.map(|v| v.to_string()));
    e
}

#[test]
fn shared_options_are_dispatched_to_their_readers() {
    let mut t = targets();
    assert_eq!(read(&mut t, &element("copy_link", Some("disabled"))), OptionRead::Read);
    assert!(!t.overrides.copy_link);
    assert_eq!(read(&mut t, &element("link", Some("https://example.com"))), OptionRead::Read);
    assert_eq!(t.links.len(), 1);
    assert_eq!(read(&mut t, &element("track_download_access", Some("paycurtain"))), OptionRead::Read);
    assert!(matches!(t.track_access, DownloadAccessOption::Paycurtain));
    let mut theme = element("theme", None);
    theme.field_value = None;
    theme.field_attributes = Some(vec![ManifestAttribute { key: String::from("base"), value: Some(String::from("dark")), line_number: 2, snippet: String::from("base = dark") }]);
    let files = vec![None];
    assert_eq!(read_artist_catalog_release_track_option(&theme, "track.eno", &None, &files, &mut t), OptionRead::Read);
    assert_eq!(t.theme.base, ThemeBase::Dark);
    assert!(t.errors.is_empty());
}

#[test]
fn other_options_change_nothing() {
    let mut t = targets();
    assert_eq!(read(&mut t, &element("tags", Some("copy"))), OptionRead::LeftToCaller);
    assert_eq!(read(&mut t, &element("track_price", Some("USD 1+"))), OptionRead::LeftToCaller);
    assert_eq!(read(&mut t, &element("title", Some("x"))), OptionRead::NotInGroup);
    assert!(t.links.is_empty() && t.errors.is_empty() && t.synopsis.is_none());
    assert!(t.overrides.copy_link);
}

#[test]
fn markdown_options_are_rendered() {
    let mut t = targets();
    assert_eq!(read(&mut t, &embed("more", Some("Read [this](https://a.org)"))), OptionRead::Read);
    let more = t.more.clone().unwrap();
    assert_eq!(more.html, "<p>Read <a href=\"https://a.org\" target=\"_blank\">this</a></p>\n");
    assert_eq!(more.stripped, "Read this (https://a.org)");
    assert_eq!(read(&mut t, &embed("payment_info", Some("*Pay*"))), OptionRead::Read);
    assert_eq!(t.payment_info.as_deref(), Some("<p><em>Pay</em></p>\n"));
    assert_eq!(read(&mut t, &embed("unlock_info", None)), OptionRead::Read);
    assert!(t.unlock_info.is_none());
    assert_eq!(read(&mut t, &embed("more", None)), OptionRead::Read);
    assert!(t.more.is_none());
    assert_eq!(read(&mut t, &element("unlock_info", Some("x"))), OptionRead::Read);
    assert_eq!(t.errors.len(), 1);
    assert!(t.errors[0].ends_with("unlock_info needs to be provided as an embed, e.g.:\n-- unlock_info\nThe text instructing on how to get a download code\n--unlock_info"));
}

#[test]
fn release_options_are_dispatched_to_their_readers() {
    let mut t = ReleaseOptionTargets {
        release_access: DownloadAccessOption::Free,
        track_access: DownloadAccessOption::Free,
        extras: ExtraDownloads::disabled(),
        errors: Vec::new(),
        warnings: Vec::new(),
    };
    assert_eq!(read_artist_catalog_release_option(&element("release_download_access", Some("code")), "release.eno", &mut t), OptionRead::Read);
    assert!(matches!(t.release_access, DownloadAccessOption::Code));
    assert!(matches!(t.track_access, DownloadAccessOption::Free));
    assert_eq!(read_artist_catalog_release_option(&element("downloads", Some("disabled")), "release.eno", &mut t), OptionRead::Read);
    assert!(matches!(t.release_access, DownloadAccessOption::Disabled));
    assert!(matches!(t.track_access, DownloadAccessOption::Disabled));
    assert_eq!(t.warnings.len(), 1);
    assert_eq!(read_artist_catalog_release_option(&element("release_extras", Some("separate")), "release.eno", &mut t), OptionRead::Read);
    assert_eq!(t.extras, ExtraDownloads::separate());
    assert_eq!(read_artist_catalog_release_option(&element("release_price", Some("EUR 5")), "release.eno", &mut t), OptionRead::LeftToCaller);
    assert_eq!(read_artist_catalog_release_option(&element("title", Some("x")), "release.eno", &mut t), OptionRead::NotInGroup);
    assert!(t.errors.is_empty());
}
