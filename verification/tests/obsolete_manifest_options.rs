use faircamp::manifest::not_supported_error;
use faircamp::obsolete_options::{
    obsolete_option_message, obsolete_theme_attribute_message, ElementKind, OBSOLETE_ARTIST_FIELD,
    OBSOLETE_ARTIST_SECTION, OBSOLETE_ARTIST_SECTION_IN_ARTIST_MANIFEST, OBSOLETE_CATALOG_SECTION,
    OBSOLETE_CATALOG_SECTION_IN_CATALOG_MANIFEST, OBSOLETE_CODE, OBSOLETE_PAYMENT_SECTION,
    OBSOLETE_THEME_ROUND_CORNERS,
};

const FIELD: ElementKind = ElementKind::Field { has_value: true };
const ATTRIBUTE_FIELD: ElementKind = ElementKind::Field { has_value: false };

#[test]
fn artist_field_with_value_was_renamed() {
    assert_eq!(obsolete_option_message("artist", FIELD, "release.eno", false), Some(OBSOLETE_ARTIST_FIELD));
    assert!(OBSOLETE_ARTIST_FIELD.starts_with("Since faircamp 1.0, the original 'artist' field"));
    assert!(OBSOLETE_ARTIST_FIELD.ends_with("alias = \u{c4}lice\nalias = \u{c4}lic\u{eb}"));
}

#[test]
fn artist_field_with_attributes_is_current() {
    assert_eq!(obsolete_option_message("artist", ATTRIBUTE_FIELD, "release.eno", false), None);
    assert_eq!(obsolete_option_message("artist", ElementKind::Other, "release.eno", false), None);
}

#[test]
fn artist_section_message_depends_on_manifest() {
    assert_eq!(
        obsolete_option_message("artist", ElementKind::Section, "artist.eno", false),
        Some(OBSOLETE_ARTIST_SECTION_IN_ARTIST_MANIFEST)
    );
    assert_eq!(
        obsolete_option_message("artist", ElementKind::Section, "release.eno", false),
        Some(OBSOLETE_ARTIST_SECTION)
    );
    assert!(OBSOLETE_ARTIST_SECTION.contains("\n\n  artist:\n  name = Alice\n  permalink = alice\n"));
    assert!(OBSOLETE_ARTIST_SECTION.ends_with("dedicated to the artist only.\n"));
}

#[test]
fn catalog_section_is_only_unneeded_in_the_root_catalog_manifest() {
    assert_eq!(
        obsolete_option_message("catalog", ElementKind::Section, "catalog.eno", true),
        Some(OBSOLETE_CATALOG_SECTION_IN_CATALOG_MANIFEST)
    );
    assert_eq!(
        obsolete_option_message("catalog", ElementKind::Section, "catalog.eno", false),
        Some(OBSOLETE_CATALOG_SECTION)
    );
    assert_eq!(
        obsolete_option_message("catalog", ElementKind::Section, "release.eno", true),
        Some(OBSOLETE_CATALOG_SECTION)
    );
    assert_eq!(obsolete_option_message("catalog", FIELD, "catalog.eno", true), None);
}

#[test]
fn renamed_keys_are_obsolete_in_any_shape() {
    assert_eq!(obsolete_option_message("code", FIELD, "release.eno", false), Some(OBSOLETE_CODE));
    assert_eq!(obsolete_option_message("codes", ElementKind::Section, "release.eno", false), Some(OBSOLETE_CODE));
    assert_eq!(
        obsolete_option_message("text", ElementKind::Other, "release.eno", false),
        Some("Since faircamp 1.0, the name of the 'text' option has changed to 'more'.")
    );
}

#[test]
fn section_only_keys_leave_fields_alone() {
    assert_eq!(obsolete_option_message("theme", FIELD, "catalog.eno", true), None);
    assert_eq!(obsolete_option_message("embedding", FIELD, "catalog.eno", true), None);
    assert_eq!(obsolete_option_message("payment", FIELD, "catalog.eno", true), None);
    assert_eq!(
        obsolete_option_message("payment", ElementKind::Section, "catalog.eno", true),
        Some(OBSOLETE_PAYMENT_SECTION)
    );
    assert!(OBSOLETE_PAYMENT_SECTION.ends_with("  -- payment_info\n"));
}

#[test]
fn current_keys_are_not_obsolete() {
    for key in ["release_artist", "track_downloads", "more", "synopsis", "permalink", "cache_optimization"] {
        assert_eq!(obsolete_option_message(key, FIELD, "release.eno", false), None);
        assert_eq!(obsolete_option_message(key, ElementKind::Section, "release.eno", false), None);
    }
}

#[test]
fn obsolete_theme_attributes() {
    assert_eq!(
        obsolete_theme_attribute_message("link_hue", true),
        Some("Since faircamp 0.16.0, theming works differently and the link_hue setting needs to be replaced (the base_hue attribute is the closest alternative)")
    );
    assert_eq!(obsolete_theme_attribute_message("round_corners", false), Some(OBSOLETE_THEME_ROUND_CORNERS));
    assert_eq!(obsolete_theme_attribute_message("round_corners", true), None);
    assert_eq!(obsolete_theme_attribute_message("base_hue", true), None);
}

#[test]
fn unsupported_option_lists_all_supported_options_sorted() {
    let error = not_supported_error("track.eno", "titel", &[&["title", "synopsis"], &["more", "link", "more_label"]]);
    assert_eq!(
        error,
        "This 'titel' option was not recognized (check for typos and that the option is supported inside a(n) track.eno manifest).\n\nInside this manifest (track.eno) the following keys are supported:\nlink, more, more_label, synopsis, title"
    );
}

#[test]
fn unsupported_option_without_supported_options() {
    let error = not_supported_error("x", "y", &[]);
    assert!(error.ends_with("the following keys are supported:\n"));
}
