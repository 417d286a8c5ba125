//! The options that artist, catalog, release and track manifests all hold,
//! read through one entry point.

use vstd::prelude::*;

use crate::downloads::{DownloadAccessOption, ExtraDownloads};
use crate::image_option::ReferencedFile;
use crate::link::{link_views, Link, LinkView};
use crate::link_option::{read_link_option, spec_read_link_option};
use crate::markdown::{spec_to_html, spec_to_html_and_stripped, to_html, to_html_and_stripped, HtmlAndStripped};
use crate::release_manifest::{
    errors_for, push_element_error, read_download_access_option, read_downloads_option, read_release_extras_option, read_shared_option,
    read_synopsis_option, spec_read_downloads_option, spec_read_release_extras_option,
    spec_read_download_access_option, spec_read_shared_option, spec_read_synopsis_option, ManifestElement,
    SharedOverrides, SharedOverridesView,
};
use crate::text::{opt_view, str_equal, views};
use crate::theme_option::{read_theme_option, spec_read_theme_option, ThemeSettings, ThemeSettingsView};

verus! {

/// Whether an option was read.
#[derive(Clone, Copy, Debug, PartialEq, Eq, Structural)]
pub enum OptionRead {
    /// The option is one of the group and was read here.
    Read,
    /// The option is one of the group, but reading it takes what the caller
    /// holds (download formats, permalinks, prices, streaming qualities or
    /// tag settings), so nothing was read here.
    LeftToCaller,
    /// The option is not one of the group; nothing was read.
    NotInGroup,
}

/// What the options of the group set, and the messages that reading them
/// gives.
pub struct TrackOptionTargets {
    pub links: Vec<Link>,
    /// The longer text, as html and as plain text.
    pub more: Option<HtmlAndStripped>,
    pub overrides: SharedOverrides,
    /// Payment information, as html.
    pub payment_info: Option<String>,
    pub synopsis: Option<String>,
    pub theme: ThemeSettings,
    pub track_access: DownloadAccessOption,
    /// Instructions on how to get a download code, as html.
    pub unlock_info: Option<String>,
    pub errors: Vec<String>,
    pub warnings: Vec<String>,
}

#[verifier::ext_equal]
pub struct TrackOptionTargetsView {
    pub links: Seq<LinkView>,
    pub more: Option<(Seq<char>, Seq<char>)>,
    pub overrides: SharedOverridesView,
    pub payment_info: Option<Seq<char>>,
    pub synopsis: Option<Seq<char>>,
    pub theme: ThemeSettingsView,
    pub track_access: DownloadAccessOption,
    pub unlock_info: Option<Seq<char>>,
    pub errors: Seq<Seq<char>>,
    pub warnings: Seq<Seq<char>>,
}

impl View for TrackOptionTargets {
    type V = TrackOptionTargetsView;

    open spec fn view(&self) -> TrackOptionTargetsView {
        TrackOptionTargetsView {
            links: link_views(self.links@),
            more: match self.more {
                Some(m) => Some((m.html@, m.stripped@)),
                None => None,
            },
            overrides: self.overrides@,
            payment_info: opt_view(self.payment_info),
            synopsis: opt_view(self.synopsis),
            theme: self.theme@,
            track_access: self.track_access,
            unlock_info: opt_view(self.unlock_info),
            errors: views(self.errors@),
            warnings: views(self.warnings@),
        }
    }
}

pub const MORE_SHAPE_ERROR: &'static str = "The 'more' option needs to be provided as an embed, e.g.:\n-- more\nA long-form 'more' text\n--more";

pub const PAYMENT_INFO_SHAPE_ERROR: &'static str = "payment_info needs to be provided as an embed, e.g.:\n-- payment_info\nThe payment info text\n--payment_info";

pub const UNLOCK_INFO_SHAPE_ERROR: &'static str = "unlock_info needs to be provided as an embed, e.g.:\n-- unlock_info\nThe text instructing on how to get a download code\n--unlock_info";

/// The keys of the group whose reading the caller does.
pub open spec fn left_to_caller(key: Seq<char>) -> bool {
    key == "download_code"@ || key == "download_codes"@ || key == "streaming_quality"@ || key == "tags"@
        || key == "track_downloads"@ || key == "track_price"@
}

/// What reading an element of the group does to the targets. Markdown
/// embeds are rendered with `site_url`: `more` to html and plain text
/// (an empty embed removes it), `payment_info` and `unlock_info` to html
/// (an empty embed leaves them); an element of another shape is an error.
/// The other options are read as their own readers state.
pub open spec fn spec_track_option(
    element: ManifestElement,
    manifest_path: Seq<char>,
    site_url: Option<Seq<char>>,
    files: Seq<Option<ReferencedFile>>,
    t: TrackOptionTargetsView,
) -> (OptionRead, TrackOptionTargetsView) {
    let key = element.key@;
    let (shared, overrides, shared_errors) = spec_read_shared_option(element, manifest_path, t.overrides);
    if shared {
        (OptionRead::Read, TrackOptionTargetsView { overrides, errors: t.errors + shared_errors, ..t })
    } else if key == "link"@ {
        let (_, links, e) = spec_read_link_option(element, manifest_path, t.links);
        (OptionRead::Read, TrackOptionTargetsView { links, errors: t.errors + e, ..t })
    } else if key == "synopsis"@ {
        let (_, synopsis, e) = spec_read_synopsis_option(element, manifest_path, t.synopsis);
        (OptionRead::Read, TrackOptionTargetsView { synopsis, errors: t.errors + e, ..t })
    } else if key == "theme"@ {
        let (_, theme, e, w) = spec_read_theme_option(element, files, manifest_path, t.theme);
        (OptionRead::Read, TrackOptionTargetsView { theme, errors: t.errors + e, warnings: t.warnings + w, ..t })
    } else if key == "track_download_access"@ {
        let (_, _, track_access, e) = spec_read_download_access_option(element, manifest_path, DownloadAccessOption::Disabled, t.track_access);
        (OptionRead::Read, TrackOptionTargetsView { track_access, errors: t.errors + e, ..t })
    } else if key == "more"@ {
        match element.embed_value {
            Some(Some(v)) => (OptionRead::Read, TrackOptionTargetsView { more: Some(spec_to_html_and_stripped(site_url, v@)), ..t }),
            Some(None) => (OptionRead::Read, TrackOptionTargetsView { more: None, ..t }),
            None => (OptionRead::Read, TrackOptionTargetsView { errors: t.errors + errors_for(element, manifest_path, Some(MORE_SHAPE_ERROR@)), ..t }),
        }
    } else if key == "payment_info"@ {
        match element.embed_value {
            Some(Some(v)) => (OptionRead::Read, TrackOptionTargetsView { payment_info: Some(spec_to_html(site_url, v@)), ..t }),
            Some(None) => (OptionRead::Read, t),
            None => (OptionRead::Read, TrackOptionTargetsView { errors: t.errors + errors_for(element, manifest_path, Some(PAYMENT_INFO_SHAPE_ERROR@)), ..t }),
        }
    } else if key == "unlock_info"@ {
        match element.embed_value {
            Some(Some(v)) => (OptionRead::Read, TrackOptionTargetsView { unlock_info: Some(spec_to_html(site_url, v@)), ..t }),
            Some(None) => (OptionRead::Read, t),
            None => (OptionRead::Read, TrackOptionTargetsView { errors: t.errors + errors_for(element, manifest_path, Some(UNLOCK_INFO_SHAPE_ERROR@)), ..t }),
        }
    } else if left_to_caller(key) {
        (OptionRead::LeftToCaller, t)
    } else {
        (OptionRead::NotInGroup, t)
    }
}

/// Reads an element as one of the options that artist, catalog, release and
/// track manifests share, into `targets` (see `spec_track_option`).
/// `site_url` is the site's url without its trailing slash, where it has
/// one; `files` holds what was found for each attribute of a `theme`.
pub fn read_artist_catalog_release_track_option(
    element: &ManifestElement,
    manifest_path: &str,
    site_url: &Option<String>,
    files: &Vec<Option<ReferencedFile>>,
    targets: &mut TrackOptionTargets,
) -> (read: OptionRead)
    requires
        element.key@ == "theme"@ ==> match element.field_attributes {
            Some(attributes) => files.len() == attributes.len(),
            None => true,
        },
    ensures
        (read, final(targets)@) == spec_track_option(*element, manifest_path@, opt_view(*site_url), files@, old(targets)@),
{
    proof {
        reveal_strlit("link");
        assert("link"@.len() == 4);
        reveal_strlit("synopsis");
        assert("synopsis"@.len() == 8);
        reveal_strlit("theme");
        assert("theme"@.len() == 5);
        reveal_strlit("track_download_access");
        assert("track_download_access"@.len() == 21);
        reveal_strlit("more");
        assert("more"@.len() == 4 && "more"@[0] == 'm' && "link"@[0] == 'l');
        reveal_strlit("payment_info");
        assert("payment_info"@.len() == 12);
        reveal_strlit("unlock_info");
        assert("unlock_info"@.len() == 11);
    }
    let ghost t = targets@;
    let key = element.key.as_str();
    if read_shared_option(element, manifest_path, &mut targets.overrides, &mut targets.errors) {
        assert(targets@ =~= spec_track_option(*element, manifest_path@, opt_view(*site_url), files@, t).1);
        return OptionRead::Read;
    }
    assert(targets@ =~= t);
    if str_equal(key, "link") {
        read_link_option(element, manifest_path, &mut targets.links, &mut targets.errors);
        assert(targets@ =~= spec_track_option(*element, manifest_path@, opt_view(*site_url), files@, t).1);
        return OptionRead::Read;
    }
    if str_equal(key, "synopsis") {
        read_synopsis_option(element, manifest_path, &mut targets.synopsis, &mut targets.errors);
        assert(targets@ =~= spec_track_option(*element, manifest_path@, opt_view(*site_url), files@, t).1);
        return OptionRead::Read;
    }
    if str_equal(key, "theme") {
        read_theme_option(element, files, manifest_path, &mut targets.theme, &mut targets.errors, &mut targets.warnings);
        assert(targets@ =~= spec_track_option(*element, manifest_path@, opt_view(*site_url), files@, t).1);
        return OptionRead::Read;
    }
    if str_equal(key, "track_download_access") {
        let mut unused = DownloadAccessOption::Disabled;
        read_download_access_option(element, manifest_path, &mut unused, &mut targets.track_access, &mut targets.errors);
        assert(targets@ =~= spec_track_option(*element, manifest_path@, opt_view(*site_url), files@, t).1);
        return OptionRead::Read;
    }
    let more = str_equal(key, "more");
    let payment = str_equal(key, "payment_info");
    let unlock = str_equal(key, "unlock_info");
    if more || payment || unlock {
        match &element.embed_value {
            Some(Some(v)) => {
                if more {
                    targets.more = Some(to_html_and_stripped(site_url, v.as_str()));
                } else if payment {
                    targets.payment_info = Some(to_html(site_url, v.as_str()));
                } else {
                    targets.unlock_info = Some(to_html(site_url, v.as_str()));
                }
            },
            Some(None) => {
                if more {
                    targets.more = None;
                }
            },
            None => {
                let message = if more {
                    MORE_SHAPE_ERROR
                } else if payment {
                    PAYMENT_INFO_SHAPE_ERROR
                } else {
                    UNLOCK_INFO_SHAPE_ERROR
                };
                push_element_error(&mut targets.errors, element, manifest_path, message);
            },
        }
        assert(targets@ =~= spec_track_option(*element, manifest_path@, opt_view(*site_url), files@, t).1);
        return OptionRead::Read;
    }
    if str_equal(key, "download_code") || str_equal(key, "download_codes") || str_equal(key, "streaming_quality")
        || str_equal(key, "tags") || str_equal(key, "track_downloads") || str_equal(key, "track_price") {
        OptionRead::LeftToCaller
    } else {
        OptionRead::NotInGroup
    }
}


/// What the options of the group of artist, catalog and release manifests
/// set, and the messages that reading them gives.
pub struct ReleaseOptionTargets {
    pub release_access: DownloadAccessOption,
    pub track_access: DownloadAccessOption,
    pub extras: ExtraDownloads,
    pub errors: Vec<String>,
    pub warnings: Vec<String>,
}

#[verifier::ext_equal]
pub struct ReleaseOptionTargetsView {
    pub release_access: DownloadAccessOption,
    pub track_access: DownloadAccessOption,
    pub extras: ExtraDownloads,
    pub errors: Seq<Seq<char>>,
    pub warnings: Seq<Seq<char>>,
}

impl View for ReleaseOptionTargets {
    type V = ReleaseOptionTargetsView;

    open spec fn view(&self) -> ReleaseOptionTargetsView {
        ReleaseOptionTargetsView {
            release_access: self.release_access,
            track_access: self.track_access,
            extras: self.extras,
            errors: views(self.errors@),
            warnings: views(self.warnings@),
        }
    }
}

/// What reading an element of the group of artist, catalog and release
/// manifests does: `release_download_access`, `release_extras` and the
/// older `downloads` and `extra_downloads` are read as their readers
/// state; `release_downloads`, `release_price`, `price` and
/// `track_numbering` are left to the caller.
pub open spec fn spec_release_option(
    element: ManifestElement,
    manifest_path: Seq<char>,
    t: ReleaseOptionTargetsView,
) -> (OptionRead, ReleaseOptionTargetsView) {
    let key = element.key@;
    if key == "downloads"@ {
        let (_, r, tr, e, w) = spec_read_downloads_option(element, manifest_path, t.release_access, t.track_access);
        (OptionRead::Read, ReleaseOptionTargetsView { release_access: r, track_access: tr, errors: t.errors + e, warnings: t.warnings + w, ..t })
    } else if key == "release_download_access"@ {
        let (_, r, _, e) = spec_read_download_access_option(element, manifest_path, t.release_access, t.track_access);
        (OptionRead::Read, ReleaseOptionTargetsView { release_access: r, errors: t.errors + e, ..t })
    } else if key == "release_extras"@ || key == "extra_downloads"@ {
        let (_, x, e, w) = spec_read_release_extras_option(element, manifest_path, t.extras);
        (OptionRead::Read, ReleaseOptionTargetsView { extras: x, errors: t.errors + e, warnings: t.warnings + w, ..t })
    } else if key == "release_downloads"@ || key == "release_price"@ || key == "price"@ || key == "track_numbering"@ {
        (OptionRead::LeftToCaller, t)
    } else {
        (OptionRead::NotInGroup, t)
    }
}

/// Reads an element as one of the options that artist, catalog and release
/// manifests share, into `targets` (see `spec_release_option`).
pub fn read_artist_catalog_release_option(
    element: &ManifestElement,
    manifest_path: &str,
    targets: &mut ReleaseOptionTargets,
) -> (read: OptionRead)
    ensures
        (read, final(targets)@) == spec_release_option(*element, manifest_path@, old(targets)@),
{
    proof {
        reveal_strlit("downloads");
        assert("downloads"@.len() == 9);
        reveal_strlit("release_download_access");
        assert("release_download_access"@.len() == 23);
        reveal_strlit("track_download_access");
        assert("track_download_access"@.len() == 21);
        reveal_strlit("release_extras");
        assert("release_extras"@.len() == 14);
        reveal_strlit("extra_downloads");
        assert("extra_downloads"@.len() == 15);
    }
    let ghost t = targets@;
    let key = element.key.as_str();
    if str_equal(key, "downloads") {
        read_downloads_option(element, manifest_path, &mut targets.release_access, &mut targets.track_access, &mut targets.errors, &mut targets.warnings);
        assert(targets@ =~= spec_release_option(*element, manifest_path@, t).1);
        return OptionRead::Read;
    }
    if str_equal(key, "release_download_access") {
        read_download_access_option(element, manifest_path, &mut targets.release_access, &mut targets.track_access, &mut targets.errors);
        assert(targets@ =~= spec_release_option(*element, manifest_path@, t).1);
        return OptionRead::Read;
    }
    if str_equal(key, "release_extras") || str_equal(key, "extra_downloads") {
        read_release_extras_option(element, manifest_path, &mut targets.extras, &mut targets.errors, &mut targets.warnings);
        assert(targets@ =~= spec_release_option(*element, manifest_path@, t).1);
        return OptionRead::Read;
    }
    if str_equal(key, "release_downloads") || str_equal(key, "release_price") || str_equal(key, "price")
        || str_equal(key, "track_numbering") {
        OptionRead::LeftToCaller
    } else {
        OptionRead::NotInGroup
    }
}
} // verus!
