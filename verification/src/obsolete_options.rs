use vstd::prelude::*;

use crate::text::str_equal;

verus! {

pub const OBSOLETE_ARTIST_FIELD: &'static str = "Since faircamp 1.0, the original 'artist' field (used to set the artist of a release) has been renamed to 'release_artist'. If you meant to use the new 'artist' field (which is a short-hand for defining an artist) you need to use a field with attributes, e.g.:\n\nartist:\nname = Alice\nlink = https://example.com\nalias = \u{c4}lice\nalias = \u{c4}lic\u{eb}";

pub const OBSOLETE_ARTIST_SECTION_IN_ARTIST_MANIFEST: &'static str = "Since faircamp 1.0, '# artist' sections are not required anymore - just remove the line '# artist'";

pub const OBSOLETE_ARTIST_SECTION: &'static str = "Since faircamp 1.0, '# artist' sections are not used anymore. Remove the line '# artist' and pick one of these two options:\n\n1) If you only need to set the name, permalink, and alias(es) you can use the new artist field inside a 'catalog.eno' or 'release.eno' manifest file (this only defines the artist, assigning an artist to a release happens with the 'release_artist(s)' field now):\n\n  artist:\n  name = Alice\n  permalink = alice\n  alias = alice\n  alias = \u{c4}lic\u{eb}\n\n2) For a full-fledged artist definition (including image, long text etc.), move all options you had inside the '# artist' section to a file called 'artist.eno', inside a separate directory dedicated to the artist only.\n";

pub const OBSOLETE_ARTISTS: &'static str = "Since faircamp 1.0, the 'artists' field (used to set the artists of a release) has been renamed to 'release_artists'.";

pub const OBSOLETE_CACHE_SECTION: &'static str = "Since faircamp 0.16.0, the \"# cache ... \" section was merged into the catalog manifest as the \"cache_optimization: delayed|immediate|wipe|manual\" option, please move and adapt the current definition accordingly.";

pub const OBSOLETE_CATALOG_SECTION_IN_CATALOG_MANIFEST: &'static str = "Since faircamp 1.0, '# catalog' sections are not required anymore - just remove the line '# catalog'";

pub const OBSOLETE_CATALOG_SECTION: &'static str = "Since faircamp 1.0, '# catalog' sections are not used anymore. Remove the line '# catalog', and move all options below to a file called 'catalog.eno' in the catalog root folder";

pub const OBSOLETE_CODE: &'static str = "Since faircamp 1.0, the 'code' and 'codes' fields have been renamed to 'download_code' and 'download_codes'.";

pub const OBSOLETE_DOWNLOAD_SECTION: &'static str = "Since faircamp 1.0, the '# download' section is obsolete - its options have changed a bit and are now put directly into the 'catalog.eno' and 'release.eno' manifest files. Some examples follow:\n\n*) Free downloads in mp3 and opus (for free downloads you only need to set the download formats!):\n\n  release_downloads:\n  - mp3\n  - opus\n\n*) Flac downloads protected with a download code:\n\n  release_download_access: code\n  release_downloads: flac\n  download_code: thesecret\n  -- unlock_info\n  Get a download code at my [shop](https://example.com)\n  -- unlock_info\n\n*) Mp3 and flac downloads with a paycurtain:\n\n  release_download_access: paycurtain\n  release_downloads:\n  - mp3\n  - flac\n  release_price: USD 0+\n  -- payment_info\n  Pay via my [donations page](https://example.com)\n  -- payment_info\n\n*) Enabling single file downloads (this is now fine-controlled by setting formats explicitly):\n\n  track_downloads:\n  - mp3\n  - flac\n\n*) External downloads:\n\n  release_download_access: https://example.com\n\n*) Disabled downloads (only ever needed when you somehow enabled them in a parent manifest):\n\n  release_download_access: disabled\n";

pub const OBSOLETE_EMBEDDING_SECTION: &'static str = "Since faircamp 1.0 the embedding option must be specified as 'embedding: enabled|disabled' inside an 'artist.eno', 'catalog.eno', 'release.eno' or 'track.eno' manifest, please move and adapt the current definiton accordingly.";

pub const OBSOLETE_EXTERNAL: &'static str = "Since faircamp 1.0, external download options such as 'external: https://example.com' are instead specified as 'downloads: https://example.com'.";

pub const OBSOLETE_FORMAT: &'static str = "Since faircamp 1.0, the 'format' and 'formats' fields have been renamed to 'release_downloads' (respectively 'track_downloads' to now separately specify the format(s) for single track downloads).";

pub const OBSOLETE_FREE: &'static str = "Since faircamp 1.0, free downloads have become the default (but explicit declaration is still possible with 'downloads: free') - you now only need to set download formats with 'release_downloads' (replaces the previous 'format(s)' option) or 'track_downloads' (now enables specific format choices for single track downloads) to enable free downloads.";

pub const OBSOLETE_INCLUDE_EXTRAS: &'static str = "Since faircamp 1.0, 'include_extras: no' is now specified as 'extra_downloads: disabled', 'include_extras: yes' as 'extra_downloads: bundled' (the default) and there's also an additional 'extra_downloads: separate' option, as well as the possiblity for enabling both, like this:\nextra_downloads:\n- bundled\n- separate.";

pub const OBSOLETE_LINK_BRIGHTNESS: &'static str = "Since faircamp 0.16.0, theming works differently and the link_brightness setting needs to be replaced (the dynamic_range attribute in the theme field is somewhat related in function now)";

pub const OBSOLETE_LINK_HUE: &'static str = "Since faircamp 0.16.0, theming works differently and the link_hue setting needs to be replaced (the base_hue attribute in the theme field is the closest alternative)";

pub const OBSOLETE_LINK_SATURATION: &'static str = "Since faircamp 0.16.0, theming works differently and the link_saturation setting needs to be replaced (the base_chroma attribute in the theme field is the closest alternative)";

pub const OBSOLETE_LOCALIZATION_SECTION: &'static str = "Since faircamp 0.16.0, specify the language directly in the 'catalog.eno' manifest using e.g. 'language: fr' (the writing direction is determined from language automatically now). The localization section must be removed, it's not supported anymore.";

pub const OBSOLETE_PAYMENT_SECTION: &'static str = "Since faircamp 1.0, specify payment options directly in an artist.eno, catalog.eno or release.eno manifest using the single 'payment_info' field. Example with context:\n\n  release_download_access: paycurtain\n  release_downloads:\n  - mp3\n  - flac\n  release_price: EUR 4+\n\n  -- payment_info\n  Pay via my [donations page](https://example.com)\n  -- payment_info\n";

pub const OBSOLETE_PAYMENT_TEXT: &'static str = "Since faircamp 1.0, the name of the 'payment_text' option has changed to 'payment_info'.";

pub const OBSOLETE_RELEASE_SECTION_IN_RELEASE_MANIFEST: &'static str = "Since faircamp 1.0, '# release' sections are not required anymore - just remove the line '# release'";

pub const OBSOLETE_RELEASE_SECTION: &'static str = "Since faircamp 1.0, '# release' sections are not used anymore. Remove the line '# release', and move all options below to a file called 'release.eno'";

pub const OBSOLETE_REWRITE_TAGS: &'static str = "Since faircamp 1.0, 'rewrite_tags: no' must be specified as 'tags: copy', 'rewrite_tags: yes' as 'tags: normalize'";

pub const OBSOLETE_ROUND_CORNERS: &'static str = "Since faircamp 1.0, 'round_corners' must be specified inside a theme field as an attribute with the value 'enabled', e.g.:'\ntheme:\nround_corners = enabled";

pub const OBSOLETE_SINGLE_FILES: &'static str = "Since faircamp 1.0, the 'single_files' option has been removed, instead you now can use the 'track_downloads' option to directly enable/pick the formats in which you want to offer single file downloads, e.g. 'track_downloads: mp3' or for multiple:\ntrack_downloads:\n- flac\n- mp3\n- opus";

pub const OBSOLETE_STREAMING_SECTION: &'static str = "Since faircamp 0.16.0, the \"# streaming\" section has been merged directly into the catalog/release manifests as the 'streaming_quality: frugal|standard' option, please adapt and move the setting accordingly.";

pub const OBSOLETE_TEXT: &'static str = "Since faircamp 1.0, the name of the 'text' option has changed to 'more'.";

pub const OBSOLETE_TEXT_HUE: &'static str = "Since faircamp 0.16.0, theming works differently and the text_hue setting needs to be replaced (the base_hue attribute in the theme field is the closest alternative)";

pub const OBSOLETE_THEME_SECTION: &'static str = "Since faircamp 1.0, the \"# theme\" section needs to be provided as a field with attributes, e.g:\n\ntheme:\naccent_chroma = 50\nbackground_image = example.jpg\nbase = light\ndynamic_range = 13\nround_corners = enabled";

pub const OBSOLETE_TINT_BACK: &'static str = "Since faircamp 0.16.0, theming works differently and the tint_back setting needs to be replaced (the base_chroma attribute in the theme field is the closest alternative)";

pub const OBSOLETE_TINT_FRONT: &'static str = "Since faircamp 0.16.0, theming works differently and the tint_front setting needs to be replaced (the base_chroma and dynamic_range attributes in the theme field in combination serve a similar purpose)";

pub const OBSOLETE_UNLOCK_TEXT: &'static str = "Since faircamp 1.0, the name of the 'unlock_text' option has changed to 'unlock_info'.";

pub const OBSOLETE_THEME_LINK_BRIGHTNESS: &'static str = "Since faircamp 0.16.0, theming works differently and the link_brightness setting needs to be replaced (the dynamic_range attribute is somewhat similar in function now)";

pub const OBSOLETE_THEME_LINK_HUE: &'static str = "Since faircamp 0.16.0, theming works differently and the link_hue setting needs to be replaced (the base_hue attribute is the closest alternative)";

pub const OBSOLETE_THEME_LINK_SATURATION: &'static str = "Since faircamp 0.16.0, theming works differently and the link_saturation setting needs to be replaced (the base_chroma attribute is the closest alternative)";

pub const OBSOLETE_THEME_ROUND_CORNERS: &'static str = "Since faircamp 1.0, 'round_corners' must be specified with the value 'enabled', e.g.:'\ntheme:\nround_corners = enabled";

pub const OBSOLETE_THEME_TEXT_HUE: &'static str = "Since faircamp 0.16.0, theming works differently and the text_hue setting needs to be replaced (the base_hue attribute is the closest alternative)";

pub const OBSOLETE_THEME_TINT_BACK: &'static str = "Since faircamp 0.16.0, theming works differently and the tint_back setting needs to be replaced (the base_chroma attribute is the closest alternative)";

pub const OBSOLETE_THEME_TINT_FRONT: &'static str = "Since faircamp 0.16.0, theming works differently and the tint_front setting needs to be replaced (the base_chroma and dynamic_range attributes in combination serve a similar purpose)";

/// The shape of a manifest element, as far as recognizing obsolete options
/// needs it.
#[derive(Clone, Copy, Debug, PartialEq, Eq, Structural)]
pub enum ElementKind {
    Field { has_value: bool },
    Section,
    /// An embed or a flag.
    Other,
}

/// The error for an element of a manifest that uses an option of an earlier
/// version, or `None` where the element is not recognizably obsolete (it is
/// then read as a regular option). `manifest_file` is the manifest's file
/// name, `in_catalog_dir` whether it lies in the catalog's root directory.
pub open spec fn spec_obsolete_option_message(
    key: Seq<char>,
    element: ElementKind,
    manifest_file: Seq<char>,
    in_catalog_dir: bool,
) -> Option<Seq<char>> {
    let section = element is Section;
    if key == "artist"@ {
        if element == (ElementKind::Field { has_value: true }) {
            Some(OBSOLETE_ARTIST_FIELD@)
        } else if section {
            if manifest_file == "artist.eno"@ {
                Some(OBSOLETE_ARTIST_SECTION_IN_ARTIST_MANIFEST@)
            } else {
                Some(OBSOLETE_ARTIST_SECTION@)
            }
        } else {
            None
        }
    } else if key == "artists"@ {
        if element is Field {
            Some(OBSOLETE_ARTISTS@)
        } else {
            None
        }
    } else if key == "cache"@ {
        if section { Some(OBSOLETE_CACHE_SECTION@) } else { None }
    } else if key == "catalog"@ {
        if section {
            if manifest_file == "catalog.eno"@ && in_catalog_dir {
                Some(OBSOLETE_CATALOG_SECTION_IN_CATALOG_MANIFEST@)
            } else {
                Some(OBSOLETE_CATALOG_SECTION@)
            }
        } else {
            None
        }
    } else if key == "code"@ || key == "codes"@ {
        Some(OBSOLETE_CODE@)
    } else if key == "download"@ {
        if section { Some(OBSOLETE_DOWNLOAD_SECTION@) } else { None }
    } else if key == "embedding"@ {
        if section { Some(OBSOLETE_EMBEDDING_SECTION@) } else { None }
    } else if key == "external"@ {
        Some(OBSOLETE_EXTERNAL@)
    } else if key == "format"@ || key == "formats"@ {
        Some(OBSOLETE_FORMAT@)
    } else if key == "free"@ {
        Some(OBSOLETE_FREE@)
    } else if key == "include_extras"@ {
        Some(OBSOLETE_INCLUDE_EXTRAS@)
    } else if key == "link_brightness"@ {
        Some(OBSOLETE_LINK_BRIGHTNESS@)
    } else if key == "link_hue"@ {
        Some(OBSOLETE_LINK_HUE@)
    } else if key == "link_saturation"@ {
        Some(OBSOLETE_LINK_SATURATION@)
    } else if key == "localization"@ {
        if section { Some(OBSOLETE_LOCALIZATION_SECTION@) } else { None }
    } else if key == "payment"@ {
        if section { Some(OBSOLETE_PAYMENT_SECTION@) } else { None }
    } else if key == "payment_text"@ {
        Some(OBSOLETE_PAYMENT_TEXT@)
    } else if key == "release"@ {
        if section {
            if manifest_file == "release.eno"@ {
                Some(OBSOLETE_RELEASE_SECTION_IN_RELEASE_MANIFEST@)
            } else {
                Some(OBSOLETE_RELEASE_SECTION@)
            }
        } else {
            None
        }
    } else if key == "rewrite_tags"@ {
        Some(OBSOLETE_REWRITE_TAGS@)
    } else if key == "round_corners"@ {
        Some(OBSOLETE_ROUND_CORNERS@)
    } else if key == "single_files"@ {
        Some(OBSOLETE_SINGLE_FILES@)
    } else if key == "streaming"@ {
        if section { Some(OBSOLETE_STREAMING_SECTION@) } else { None }
    } else if key == "text"@ {
        Some(OBSOLETE_TEXT@)
    } else if key == "text_hue"@ {
        Some(OBSOLETE_TEXT_HUE@)
    } else if key == "theme"@ {
        if section { Some(OBSOLETE_THEME_SECTION@) } else { None }
    } else if key == "tint_back"@ {
        Some(OBSOLETE_TINT_BACK@)
    } else if key == "tint_front"@ {
        Some(OBSOLETE_TINT_FRONT@)
    } else if key == "unlock_text"@ {
        Some(OBSOLETE_UNLOCK_TEXT@)
    } else {
        None
    }
}

/// The error for an attribute of a theme field that belongs to an earlier
/// version of theming, or `None` where the attribute is read regularly.
pub open spec fn spec_obsolete_theme_attribute_message(key: Seq<char>, has_value: bool) -> Option<Seq<char>> {
    if key == "link_brightness"@ {
        Some(OBSOLETE_THEME_LINK_BRIGHTNESS@)
    } else if key == "link_hue"@ {
        Some(OBSOLETE_THEME_LINK_HUE@)
    } else if key == "link_saturation"@ {
        Some(OBSOLETE_THEME_LINK_SATURATION@)
    } else if key == "round_corners"@ && !has_value {
        Some(OBSOLETE_THEME_ROUND_CORNERS@)
    } else if key == "text_hue"@ {
        Some(OBSOLETE_THEME_TEXT_HUE@)
    } else if key == "tint_back"@ {
        Some(OBSOLETE_THEME_TINT_BACK@)
    } else if key == "tint_front"@ {
        Some(OBSOLETE_THEME_TINT_FRONT@)
    } else {
        None
    }
}

/// The message for an element only where it is a section.
fn if_section(element: ElementKind, message: &'static str) -> (r: Option<&'static str>)
    ensures
        r == if element is Section { Some(message) } else { None::<&'static str> },
{
    match element {
        ElementKind::Section => Some(message),
        _ => None,
    }
}

/// Recognizes an element of a manifest that uses an obsolete option, and
/// gives the error that explains what replaced it.
#[verifier::rlimit(50)]
pub fn obsolete_option_message(
    key: &str,
    element: ElementKind,
    manifest_file: &str,
    in_catalog_dir: bool,
) -> (message: Option<&'static str>)
    ensures
        match message {
            Some(m) => spec_obsolete_option_message(key@, element, manifest_file@, in_catalog_dir)
                == Some(m@),
            None => spec_obsolete_option_message(key@, element, manifest_file@, in_catalog_dir) is None,
        },
{
    if str_equal(key, "artist") {
        match element {
            ElementKind::Field { has_value: true } => Some(OBSOLETE_ARTIST_FIELD),
            ElementKind::Section => {
                if str_equal(manifest_file, "artist.eno") {
                    Some(OBSOLETE_ARTIST_SECTION_IN_ARTIST_MANIFEST)
                } else {
                    Some(OBSOLETE_ARTIST_SECTION)
                }
            },
            _ => None,
        }
    } else if str_equal(key, "artists") {
        match element {
            ElementKind::Field { .. } => Some(OBSOLETE_ARTISTS),
            _ => None,
        }
    } else if str_equal(key, "cache") {
        if_section(element, OBSOLETE_CACHE_SECTION)
    } else if str_equal(key, "catalog") {
        match element {
            ElementKind::Section => {
                if str_equal(manifest_file, "catalog.eno") && in_catalog_dir {
                    Some(OBSOLETE_CATALOG_SECTION_IN_CATALOG_MANIFEST)
                } else {
                    Some(OBSOLETE_CATALOG_SECTION)
                }
            },
            _ => None,
        }
    } else if str_equal(key, "code") || str_equal(key, "codes") {
        Some(OBSOLETE_CODE)
    } else if str_equal(key, "download") {
        if_section(element, OBSOLETE_DOWNLOAD_SECTION)
    } else if str_equal(key, "embedding") {
        if_section(element, OBSOLETE_EMBEDDING_SECTION)
    } else if str_equal(key, "external") {
        Some(OBSOLETE_EXTERNAL)
    } else if str_equal(key, "format") || str_equal(key, "formats") {
        Some(OBSOLETE_FORMAT)
    } else if str_equal(key, "free") {
        Some(OBSOLETE_FREE)
    } else if str_equal(key, "include_extras") {
        Some(OBSOLETE_INCLUDE_EXTRAS)
    } else if str_equal(key, "link_brightness") {
        Some(OBSOLETE_LINK_BRIGHTNESS)
    } else if str_equal(key, "link_hue") {
        Some(OBSOLETE_LINK_HUE)
    } else if str_equal(key, "link_saturation") {
        Some(OBSOLETE_LINK_SATURATION)
    } else if str_equal(key, "localization") {
        if_section(element, OBSOLETE_LOCALIZATION_SECTION)
    } else if str_equal(key, "payment") {
        if_section(element, OBSOLETE_PAYMENT_SECTION)
    } else if str_equal(key, "payment_text") {
        Some(OBSOLETE_PAYMENT_TEXT)
    } else if str_equal(key, "release") {
        match element {
            ElementKind::Section => {
                if str_equal(manifest_file, "release.eno") {
                    Some(OBSOLETE_RELEASE_SECTION_IN_RELEASE_MANIFEST)
                } else {
                    Some(OBSOLETE_RELEASE_SECTION)
                }
            },
            _ => None,
        }
    } else if str_equal(key, "rewrite_tags") {
        Some(OBSOLETE_REWRITE_TAGS)
    } else if str_equal(key, "round_corners") {
        Some(OBSOLETE_ROUND_CORNERS)
    } else if str_equal(key, "single_files") {
        Some(OBSOLETE_SINGLE_FILES)
    } else if str_equal(key, "streaming") {
        if_section(element, OBSOLETE_STREAMING_SECTION)
    } else if str_equal(key, "text") {
        Some(OBSOLETE_TEXT)
    } else if str_equal(key, "text_hue") {
        Some(OBSOLETE_TEXT_HUE)
    } else if str_equal(key, "theme") {
        if_section(element, OBSOLETE_THEME_SECTION)
    } else if str_equal(key, "tint_back") {
        Some(OBSOLETE_TINT_BACK)
    } else if str_equal(key, "tint_front") {
        Some(OBSOLETE_TINT_FRONT)
    } else if str_equal(key, "unlock_text") {
        Some(OBSOLETE_UNLOCK_TEXT)
    } else {
        None
    }
}

/// Recognizes an attribute of a theme field that belongs to an earlier
/// version of theming, and gives the error that explains what replaced it.
pub fn obsolete_theme_attribute_message(key: &str, has_value: bool) -> (message: Option<&'static str>)
    ensures
        match message {
            Some(m) => spec_obsolete_theme_attribute_message(key@, has_value) == Some(m@),
            None => spec_obsolete_theme_attribute_message(key@, has_value) is None,
        },
{
    if str_equal(key, "link_brightness") {
        Some(OBSOLETE_THEME_LINK_BRIGHTNESS)
    } else if str_equal(key, "link_hue") {
        Some(OBSOLETE_THEME_LINK_HUE)
    } else if str_equal(key, "link_saturation") {
        Some(OBSOLETE_THEME_LINK_SATURATION)
    } else if str_equal(key, "round_corners") && !has_value {
        Some(OBSOLETE_THEME_ROUND_CORNERS)
    } else if str_equal(key, "text_hue") {
        Some(OBSOLETE_THEME_TEXT_HUE)
    } else if str_equal(key, "tint_back") {
        Some(OBSOLETE_THEME_TINT_BACK)
    } else if str_equal(key, "tint_front") {
        Some(OBSOLETE_THEME_TINT_FRONT)
    } else {
        None
    }
}

/// The current forms of options that share their key with an obsolete one
/// are read regularly: an 'artist' field without a value (the artist
/// short-hand with attributes), and 'embedding' and 'theme' fields.
pub proof fn lemma_current_fields_are_not_obsolete(
    has_value: bool,
    manifest_file: Seq<char>,
    in_catalog_dir: bool,
)
    ensures
        spec_obsolete_option_message(
            "artist"@,
            ElementKind::Field { has_value: false },
            manifest_file,
            in_catalog_dir,
        ) is None,
        spec_obsolete_option_message(
            "embedding"@,
            ElementKind::Field { has_value },
            manifest_file,
            in_catalog_dir,
        ) is None,
        spec_obsolete_option_message(
            "theme"@,
            ElementKind::Field { has_value },
            manifest_file,
            in_catalog_dir,
        ) is None,
{
        reveal_strlit("artist");
        reveal_strlit("artists");
        reveal_strlit("cache");
        reveal_strlit("catalog");
        reveal_strlit("code");
        reveal_strlit("codes");
        reveal_strlit("download");
        reveal_strlit("embedding");
        reveal_strlit("external");
        reveal_strlit("format");
        reveal_strlit("formats");
        reveal_strlit("free");
        reveal_strlit("include_extras");
        reveal_strlit("link_brightness");
        reveal_strlit("link_hue");
        reveal_strlit("link_saturation");
        reveal_strlit("localization");
        reveal_strlit("payment");
        reveal_strlit("payment_text");
        reveal_strlit("release");
        reveal_strlit("rewrite_tags");
        reveal_strlit("round_corners");
        reveal_strlit("single_files");
        reveal_strlit("streaming");
        reveal_strlit("text");
        reveal_strlit("text_hue");
        reveal_strlit("theme");
        reveal_strlit("tint_back");
        reveal_strlit("tint_front");
        reveal_strlit("unlock_text");
        assert("embedding"@.len() != "artist"@.len());
        assert("embedding"@.len() != "artists"@.len());
        assert("embedding"@.len() != "cache"@.len());
        assert("embedding"@.len() != "catalog"@.len());
        assert("embedding"@.len() != "code"@.len());
        assert("embedding"@.len() != "codes"@.len());
        assert("embedding"@.len() != "download"@.len());
        assert("theme"@.len() != "artist"@.len());
        assert("theme"@.len() != "artists"@.len());
        assert("theme"@[0] != "cache"@[0]);
        assert("theme"@.len() != "catalog"@.len());
        assert("theme"@.len() != "code"@.len());
        assert("theme"@[0] != "codes"@[0]);
        assert("theme"@.len() != "download"@.len());
        assert("theme"@.len() != "embedding"@.len());
        assert("theme"@.len() != "external"@.len());
        assert("theme"@.len() != "format"@.len());
        assert("theme"@.len() != "formats"@.len());
        assert("theme"@.len() != "free"@.len());
        assert("theme"@.len() != "include_extras"@.len());
        assert("theme"@.len() != "link_brightness"@.len());
        assert("theme"@.len() != "link_hue"@.len());
        assert("theme"@.len() != "link_saturation"@.len());
        assert("theme"@.len() != "localization"@.len());
        assert("theme"@.len() != "payment"@.len());
        assert("theme"@.len() != "payment_text"@.len());
        assert("theme"@.len() != "release"@.len());
        assert("theme"@.len() != "rewrite_tags"@.len());
        assert("theme"@.len() != "round_corners"@.len());
        assert("theme"@.len() != "single_files"@.len());
        assert("theme"@.len() != "streaming"@.len());
        assert("theme"@.len() != "text"@.len());
        assert("theme"@.len() != "text_hue"@.len());
}

} // verus!
