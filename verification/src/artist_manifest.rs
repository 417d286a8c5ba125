//! Reading the options that only an artist manifest (artist.eno) holds:
//! `alias`, `aliases`, `external_page` and `name`.

use vstd::prelude::*;

use crate::release_manifest::{
    check_url, element_error_message, item_values, push_element_error, url_parse_error, values_of_items,
    ManifestElement,
};
use crate::text::{opt_view, str_equal, views};

verus! {

/// What an artist manifest sets through the options read here.
pub struct ArtistManifestOptions {
    /// Other names under which the artist appears in audio metadata.
    pub aliases: Vec<String>,
    /// A page elsewhere that the artist's links point to.
    pub external_page: Option<String>,
    /// The artist's name; by default the name of the directory.
    pub name: String,
}

#[verifier::ext_equal]
pub struct ArtistManifestOptionsView {
    pub aliases: Seq<Seq<char>>,
    pub external_page: Option<Seq<char>>,
    pub name: Seq<char>,
}

impl View for ArtistManifestOptions {
    type V = ArtistManifestOptionsView;

    open spec fn view(&self) -> ArtistManifestOptionsView {
        ArtistManifestOptionsView {
            aliases: views(self.aliases@),
            external_page: opt_view(self.external_page),
            name: self.name@,
        }
    }
}

pub const ALIAS_SHAPE_ERROR: &'static str = "alias needs to be provided as a field with a value, e.g.: 'alias: Älice'";

pub const ALIASES_SHAPE_ERROR: &'static str = "aliases needs to be provided as a field containing items, e.g.:\n\naliases:\n- Älice\n- Älicë";

pub const EXTERNAL_PAGE_SHAPE_ERROR: &'static str = "external_page must be provided as a field with a value, e.g. 'external_page: https://example.com'";

pub const NAME_SHAPE_ERROR: &'static str = "name needs to be provided as a field with a value, e.g.: 'name: Alice'";

pub const EXTERNAL_PAGE_MALFORMED_BEFORE: &'static str = "The url supplied for the external_page option seems to be malformed (";

/// The error for an external page url that does not parse.
pub open spec fn external_page_malformed_message(error: Seq<char>) -> Seq<char> {
    EXTERNAL_PAGE_MALFORMED_BEFORE@ + error + ")"@
}

/// What reading an element as an artist option does: whether the key is
/// one of them, the options afterwards, and the error message, if any.
pub open spec fn artist_option_outcome(element: ManifestElement, options: ArtistManifestOptionsView) -> (bool, ArtistManifestOptionsView, Option<Seq<char>>) {
    let key = element.key@;
    if key == "alias"@ {
        match element.field_value {
            Some(Some(v)) => (true, ArtistManifestOptionsView { aliases: seq![v@], ..options }, None),
            Some(None) => (true, options, None),
            None => (true, options, Some(ALIAS_SHAPE_ERROR@)),
        }
    } else if key == "aliases"@ {
        match element.field_items {
            Some(items) => (true, ArtistManifestOptionsView { aliases: item_values(items@), ..options }, None),
            None => (true, options, Some(ALIASES_SHAPE_ERROR@)),
        }
    } else if key == "external_page"@ {
        match element.field_value {
            Some(Some(v)) => match url_parse_error(v@) {
                None => (true, ArtistManifestOptionsView { external_page: Some(v@), ..options }, None),
                Some(e) => (true, options, Some(external_page_malformed_message(e))),
            },
            Some(None) => (true, options, None),
            None => (true, options, Some(EXTERNAL_PAGE_SHAPE_ERROR@)),
        }
    } else if key == "name"@ {
        match element.field_value {
            Some(Some(v)) => (true, ArtistManifestOptionsView { name: v@, ..options }, None),
            Some(None) => (true, options, None),
            None => (true, options, Some(NAME_SHAPE_ERROR@)),
        }
    } else {
        (false, options, None)
    }
}

/// Reads an element as one of the options that only an artist manifest
/// holds. `alias` replaces the aliases with its one value, `aliases` with
/// the values of its items; `external_page` takes a url that parses; `name`
/// replaces the name. An empty field changes nothing; an element of the
/// wrong shape, or an external page that does not parse, adds an error and
/// changes nothing. Returns whether the key is one of these; where it is
/// not, nothing changes.
pub fn read_artist_option(
    element: &ManifestElement,
    manifest_path: &str,
    options: &mut ArtistManifestOptions,
    errors: &mut Vec<String>,
) -> (handled: bool)
    ensures
        ({
            let (h, o, m) = artist_option_outcome(*element, old(options)@);
            &&& handled == h
            &&& final(options)@ == o
            &&& views(final(errors)@) == views(old(errors)@) + match m {
                Some(m) => seq![element_error_message(manifest_path@, element.line_number as nat, element.snippet@, m)],
                None => Seq::<Seq<char>>::empty(),
            }
        }),
{
    let ghost start = views(errors@);
    let key = element.key.as_str();
    if str_equal(key, "alias") {
        match &element.field_value {
            Some(Some(v)) => {
                let mut aliases: Vec<String> = Vec::new();
                aliases.push(v.clone());
                assert(views(aliases@) =~= seq![v@]);
                options.aliases = aliases;
            },
            Some(None) => {},
            None => push_element_error(errors, element, manifest_path, ALIAS_SHAPE_ERROR),
        }
    } else if str_equal(key, "aliases") {
        match &element.field_items {
            Some(items) => {
                options.aliases = values_of_items(items);
            },
            None => push_element_error(errors, element, manifest_path, ALIASES_SHAPE_ERROR),
        }
    } else if str_equal(key, "external_page") {
        match &element.field_value {
            Some(Some(v)) => match check_url(v.as_str()) {
                None => {
                    options.external_page = Some(v.clone());
                },
                Some(e) => {
                    let mut message = String::from_str(EXTERNAL_PAGE_MALFORMED_BEFORE);
                    message.append(e.as_str());
                    message.append(")");
                    push_element_error(errors, element, manifest_path, message.as_str());
                },
            },
            Some(None) => {},
            None => push_element_error(errors, element, manifest_path, EXTERNAL_PAGE_SHAPE_ERROR),
        }
    } else if str_equal(key, "name") {
        match &element.field_value {
            Some(Some(v)) => {
                options.name = v.clone();
            },
            Some(None) => {},
            None => push_element_error(errors, element, manifest_path, NAME_SHAPE_ERROR),
        }
    } else {
        assert(views(errors@) =~= start + Seq::<Seq<char>>::empty());
        return false;
    }
    proof {
        let (_, o, m) = artist_option_outcome(*element, old(options)@);
        assert(options@ =~= o);
        assert(views(errors@) =~= start + match m {
            Some(m) => seq![element_error_message(manifest_path@, element.line_number as nat, element.snippet@, m)],
            None => Seq::<Seq<char>>::empty(),
        });
    }
    true
}

} // verus!
