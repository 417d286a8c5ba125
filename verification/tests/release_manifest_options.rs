use faircamp::downloads::{DownloadAccessOption, ExtraDownloads};
use faircamp::release_manifest::{
    element_error_with_snippet, read_download_access_option, read_downloads_option, read_synopsis_option, read_track_option, SYNOPSIS_SHAPE_ERROR, DOWNLOADS_SPLIT_WARNING, TRACK_TITLE_SHAPE_ERROR, read_release_extras_option, read_release_option, read_shared_option, ManifestElement, ReleaseManifestOptions,
    SharedOverrides,
};

fn element(key: &str, field_value: Option<Option<&str>>, items: Option<Vec<Option<&str>>>, is_flag: bool) -> ManifestElement {
    ManifestElement {
        key: key.to_string(),
        field_value: field_value.map(|v| v.map(|s| s.to_string())),
        field_items: items.map(|items| items.into_iter().map(|i| i.map(|s| s.to_string())).collect()),
        field_attributes: None,
        embed_value: None,
        is_flag,
        line_number: 4,
        snippet: String::from("snippet"),
    }
}

fn fresh() -> ReleaseManifestOptions {
    ReleaseManifestOptions { release_date: None, title: None, unlisted_release: false, release_artists: Vec::new() }
}

#[test]
fn element_errors_name_place_and_text() {
    let e = element("title", None, None, false);
    assert_eq!(element_error_with_snippet(&e, "r/release.eno", "bad"), "Error in r/release.eno:4:\n\nsnippet\n\nbad");
}

#[test]
fn release_options_are_read() {
    let mut options = fresh();
    let mut errors = Vec::new();
    assert!(read_release_option(&element("date", Some(Some("1999-12-31")), None, false), "m", &mut options, &mut errors));
    assert_eq!(options.release_date, Some((1999, 12, 31)));
    assert!(read_release_option(&element("title", Some(Some("Demotape")), None, false), "m", &mut options, &mut errors));
    assert_eq!(options.title.as_deref(), Some("Demotape"));
    assert!(read_release_option(&element("release_artist", Some(Some("Alice")), None, false), "m", &mut options, &mut errors));
    assert_eq!(options.release_artists, vec![String::from("Alice")]);
    let items = Some(vec![Some("Bob"), None, Some("Carol")]);
    assert!(read_release_option(&element("release_artists", None, items, false), "m", &mut options, &mut errors));
    assert_eq!(options.release_artists, vec![String::from("Bob"), String::from("Carol")]);
    assert!(read_release_option(&element("unlisted", None, None, true), "m", &mut options, &mut errors));
    assert!(options.unlisted_release);
    assert!(read_release_option(&element("date", Some(None), None, false), "m", &mut options, &mut errors));
    assert_eq!(options.release_date, None);
    assert!(errors.is_empty());
    assert!(!read_release_option(&element("synopsis", Some(Some("x")), None, false), "m", &mut options, &mut errors));
    assert!(errors.is_empty());
}

#[test]
fn malformed_release_options_are_errors() {
    let mut options = fresh();
    let mut errors = Vec::new();
    assert!(read_release_option(&element("date", Some(Some("1999-31-12")), None, false), "m", &mut options, &mut errors));
    assert_eq!(options.release_date, None);
    assert_eq!(errors.len(), 1);
    assert!(errors[0].starts_with("Error in m:4:\n\nsnippet\n\nInvalid date value '1999-31-12': "));
    assert!(read_release_option(&element("unlisted", Some(Some("yes")), None, false), "m", &mut options, &mut errors));
    assert!(!options.unlisted_release);
    assert_eq!(
        errors[1],
        "Error in m:4:\n\nsnippet\n\nunlisted needs to be provided as a flag, that is, exactly as 'unlisted' (without colon and without value)"
    );
    assert!(read_release_option(&element("title", None, None, false), "m", &mut options, &mut errors));
    assert_eq!(errors[2], "Error in m:4:\n\nsnippet\n\ntitle needs to be provided as a field with a value, e.g.: 'title: Demotape'");
    assert!(read_release_option(&element("release_artists", Some(Some("Alice")), None, false), "m", &mut options, &mut errors));
    assert!(errors[3].ends_with("release_artists needs to be provided as a field with items, e.g.:\n\nrelease_artists:\n- Alice\n- Bob"));
    assert!(options.release_artists.is_empty());
}

fn shared() -> SharedOverrides {
    SharedOverrides {
        copy_link: true,
        embedding: false,
        more_label: None,
        speed_controls: true,
        track_artists: Vec::new(),
        track_extras: true,
    }
}

#[test]
fn shared_options_are_read() {
    let mut o = shared();
    let mut errors = Vec::new();
    assert!(read_shared_option(&element("copy_link", Some(Some("disabled")), None, false), "m", &mut o, &mut errors));
    assert!(!o.copy_link);
    assert!(read_shared_option(&element("embedding", Some(Some("enabled")), None, false), "m", &mut o, &mut errors));
    assert!(o.embedding);
    assert!(read_shared_option(&element("speed_controls", Some(Some("disabled")), None, false), "m", &mut o, &mut errors));
    assert!(!o.speed_controls);
    assert!(read_shared_option(&element("track_extras", Some(None), None, false), "m", &mut o, &mut errors));
    assert!(o.track_extras);
    assert!(read_shared_option(&element("more_label", Some(Some("About")), None, false), "m", &mut o, &mut errors));
    assert_eq!(o.more_label.as_deref(), Some("About"));
    assert!(read_shared_option(&element("track_artist", Some(Some("Alice")), None, false), "m", &mut o, &mut errors));
    assert_eq!(o.track_artists, vec![String::from("Alice")]);
    assert!(read_shared_option(&element("track_artists", None, Some(vec![Some("A"), Some("B")]), false), "m", &mut o, &mut errors));
    assert_eq!(o.track_artists, vec![String::from("A"), String::from("B")]);
    assert!(errors.is_empty());
    assert!(!read_shared_option(&element("title", Some(Some("x")), None, false), "m", &mut o, &mut errors));
}

#[test]
fn malformed_shared_options_are_errors() {
    let mut o = shared();
    let mut errors = Vec::new();
    assert!(read_shared_option(&element("copy_link", Some(Some("on")), None, false), "m", &mut o, &mut errors));
    assert!(o.copy_link);
    assert_eq!(errors[0], "Error in m:4:\n\nsnippet\n\nThis copy_link setting was not recognized (supported values are 'enabled' and 'disabled')");
    assert!(read_shared_option(&element("embedding", Some(Some("yes")), None, false), "m", &mut o, &mut errors));
    assert!(!o.embedding);
    assert_eq!(
        errors[1],
        "Error in m:4:\n\nsnippet\n\nThe value 'yes' is not recognized for the embedding option, allowed values are 'enabled' and 'disabled'"
    );
    assert!(read_shared_option(&element("speed_controls", None, None, true), "m", &mut o, &mut errors));
    assert!(errors[2].ends_with("speed_controls needs to be provided as a field with the value 'enabled' or 'disabled' (e.g. 'speed_controls: enabled')"));
    assert!(read_shared_option(&element("track_extras", Some(Some("maybe")), None, false), "m", &mut o, &mut errors));
    assert!(errors[3].ends_with("The value 'maybe' is not supported (allowed are: 'disabled' or 'enabled'"));
    assert_eq!(errors.len(), 4);
}

#[test]
fn release_extras_options() {
    let mut extras = ExtraDownloads::disabled();
    let mut errors = Vec::new();
    let mut warnings = Vec::new();
    assert!(read_release_extras_option(&element("release_extras", Some(Some("separate")), None, false), "m", &mut extras, &mut errors, &mut warnings));
    assert_eq!(extras, ExtraDownloads::separate());
    let items = Some(vec![Some("bundled"), Some("weird"), Some("separate")]);
    assert!(read_release_extras_option(&element("release_extras", None, items, false), "m", &mut extras, &mut errors, &mut warnings));
    assert_eq!(extras, ExtraDownloads { bundled: true, separate: true });
    assert_eq!(errors, vec![String::from(
        "Error in m:4:\n\nsnippet\n\nThe value 'weird' is not supported (allowed are: 'bundled', 'disabled' or 'separate'"
    )]);
    let items = Some(vec![Some("bundled"), Some("disabled"), None]);
    assert!(read_release_extras_option(&element("extra_downloads", None, items, false), "m", &mut extras, &mut errors, &mut warnings));
    assert_eq!(extras, ExtraDownloads::disabled());
    assert_eq!(warnings.len(), 1);
    assert!(warnings[0].ends_with("there is now also a 'track_extras' option!"));
    assert!(read_release_extras_option(&element("release_extras", None, None, true), "m", &mut extras, &mut errors, &mut warnings));
    assert_eq!(errors.len(), 2);
    assert!(errors[1].contains("release_extras needs to be provided either as a field with a value"));
    assert!(!read_release_extras_option(&element("title", Some(Some("x")), None, false), "m", &mut extras, &mut errors, &mut warnings));
    assert_eq!((errors.len(), warnings.len()), (2, 1));
}

#[test]
fn download_access_options() {
    let mut release = DownloadAccessOption::Disabled;
    let mut track = DownloadAccessOption::Disabled;
    let mut errors = Vec::new();
    assert!(read_download_access_option(&element("release_download_access", Some(Some("free")), None, false), "m", &mut release, &mut track, &mut errors));
    assert!(matches!(release, DownloadAccessOption::Free));
    assert!(read_download_access_option(&element("track_download_access", Some(Some("https://shop.example.com/x")), None, false), "m", &mut release, &mut track, &mut errors));
    assert!(matches!(track, DownloadAccessOption::External { ref link } if link == "https://shop.example.com/x"));
    assert!(errors.is_empty());
    assert!(read_download_access_option(&element("track_download_access", Some(Some("https://")), None, false), "m", &mut release, &mut track, &mut errors));
    assert!(matches!(track, DownloadAccessOption::External { .. }));
    assert_eq!(errors.len(), 1);
    assert!(errors[0].starts_with("Error in m:4:\n\nsnippet\n\nThis external downloads url is somehow not valid ("));
    assert!(errors[0].len() > "Error in m:4:\n\nsnippet\n\nThis external downloads url is somehow not valid ()".len());
    assert!(read_download_access_option(&element("release_download_access", Some(Some("gratis")), None, false), "m", &mut release, &mut track, &mut errors));
    assert!(matches!(release, DownloadAccessOption::Free));
    assert!(errors[1].ends_with("This release_download_access setting was not recognized (supported values are 'code', 'disabled', 'free', 'paycurtain' or an external url like 'https://example.com')"));
    assert!(!read_download_access_option(&element("title", Some(Some("x")), None, false), "m", &mut release, &mut track, &mut errors));
    assert_eq!(errors.len(), 2);
}

#[test]
fn downloads_option_sets_both_accesses_and_warns() {
    let mut release = DownloadAccessOption::Disabled;
    let mut track = DownloadAccessOption::Disabled;
    let mut errors = Vec::new();
    let mut warnings = Vec::new();
    assert!(read_downloads_option(&element("downloads", Some(Some("paycurtain")), None, false), "m", &mut release, &mut track, &mut errors, &mut warnings));
    assert!(matches!(release, DownloadAccessOption::Paycurtain));
    assert!(matches!(track, DownloadAccessOption::Paycurtain));
    assert!(errors.is_empty());
    assert_eq!(warnings, vec![format!("Error in m:4:\n\nsnippet\n\n{DOWNLOADS_SPLIT_WARNING}")]);

    assert!(read_downloads_option(&element("downloads", Some(Some("https://shop.example.com")), None, false), "m", &mut release, &mut track, &mut errors, &mut warnings));
    assert!(matches!(release, DownloadAccessOption::External { ref link } if link == "https://shop.example.com"));
    assert!(matches!(track, DownloadAccessOption::External { ref link } if link == "https://shop.example.com"));

    assert!(read_downloads_option(&element("downloads", Some(Some("sometimes")), None, false), "m", &mut release, &mut track, &mut errors, &mut warnings));
    assert!(matches!(release, DownloadAccessOption::External { .. }));
    assert_eq!(errors, vec!["Error in m:4:\n\nsnippet\n\nThis downloads setting was not recognized (supported values are 'code', 'disabled', 'free', 'paycurtain' or an external url like 'https://example.com')".to_string()]);
    assert_eq!(warnings.len(), 3);

    assert!(!read_downloads_option(&element("release_downloads", Some(Some("mp3")), None, false), "m", &mut release, &mut track, &mut errors, &mut warnings));
    assert_eq!(warnings.len(), 3);
    assert_eq!(errors.len(), 1);
}

#[test]
fn track_title_is_read_from_a_track_manifest() {
    let mut title = None;
    let mut errors = Vec::new();
    assert!(read_track_option(&element("title", Some(Some("Interlude")), None, false), "track.eno", &mut title, &mut errors));
    assert_eq!(title.as_deref(), Some("Interlude"));
    assert!(read_track_option(&element("title", Some(None), None, false), "track.eno", &mut title, &mut errors));
    assert_eq!(title.as_deref(), Some("Interlude"));
    assert!(read_track_option(&element("title", None, None, true), "track.eno", &mut title, &mut errors));
    assert_eq!(errors, vec![format!("Error in track.eno:4:\n\nsnippet\n\n{TRACK_TITLE_SHAPE_ERROR}")]);
    assert!(!read_track_option(&element("cover", None, None, false), "track.eno", &mut title, &mut errors));
    assert_eq!(title.as_deref(), Some("Interlude"));
}

fn embed(value: Option<&str>) -> ManifestElement {
    let mut e = element("synopsis", None, None, false);
    e.embed_value = Some(value.map(|v| v.to_string()));
    e
}

#[test]
fn synopsis_is_escaped_and_limited_to_256_characters() {
    let mut synopsis = None;
    let mut errors = Vec::new();
    assert!(read_synopsis_option(&embed(Some("Songs <b>&</b> stories")), "m", &mut synopsis, &mut errors));
    assert_eq!(synopsis.as_deref(), Some("Songs &lt;b&gt;&amp;&lt;/b&gt; stories"));
    let exactly = "ä".repeat(256);
    assert!(read_synopsis_option(&embed(Some(&exactly)), "m", &mut synopsis, &mut errors));
    assert_eq!(synopsis.as_deref(), Some(exactly.as_str()));
    assert!(errors.is_empty());
    let too_long = "x".repeat(257);
    assert!(read_synopsis_option(&embed(Some(&too_long)), "m", &mut synopsis, &mut errors));
    assert_eq!(synopsis.as_deref(), Some(exactly.as_str()));
    assert_eq!(errors, vec!["Error in m:4:\n\nsnippet\n\nSynopsis is too long (257/256 characters)".to_string()]);
    assert!(read_synopsis_option(&embed(None), "m", &mut synopsis, &mut errors));
    assert_eq!(synopsis, None);
    assert!(read_synopsis_option(&element("synopsis", Some(Some("x")), None, false), "m", &mut synopsis, &mut errors));
    assert_eq!(errors[1], format!("Error in m:4:\n\nsnippet\n\n{SYNOPSIS_SHAPE_ERROR}"));
    assert!(!read_synopsis_option(&element("title", None, None, false), "m", &mut synopsis, &mut errors));
}
