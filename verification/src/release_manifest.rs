//! Reading manifest options: those that only a release manifest
//! (release.eno) holds (`date`, `release_artist`, `release_artists`,
//! `title`, `unlisted`), and those with plain values that all manifests
//! share.
//! A manifest element comes in as what option reading asks of it: its key,
//! whether it is a field with a single (possibly empty) value or with items,
//! whether it is a flag, and where it stands for error messages.

use vstd::prelude::*;

use chrono::Datelike;

use crate::downloads::{DownloadAccessOption, ExtraDownloads};
use crate::html::{escape_outside_attribute, html_escape_outside_attribute};
use crate::text::{decimal_string, opt_view, push_decimal, starts_with, starts_with_str, str_equal, views};

verus! {

/// A manifest element, as option reading looks at it.
pub struct ManifestElement {
    pub key: String,
    /// Read as a field with a single value: `None` where the element is no
    /// such field, else its value (`None` for a field left empty).
    pub field_value: Option<Option<String>>,
    /// Read as a field with items: `None` where the element is no such
    /// field, else the value of each item (`None` for an item without one).
    pub field_items: Option<Vec<Option<String>>>,
    /// Read as a field with attributes: `None` where the element is no such
    /// field, else its attributes in order.
    pub field_attributes: Option<Vec<ManifestAttribute>>,
    /// Read as an embed: `None` where the element is no embed, else its
    /// text (`None` for an empty embed).
    pub embed_value: Option<Option<String>>,
    /// Whether the element is a flag (a key on its own).
    pub is_flag: bool,
    /// The line on which the element starts.
    pub line_number: usize,
    /// The element's text, as shown in error messages.
    pub snippet: String,
}

/// An attribute of a manifest field (`key = value`).
pub struct ManifestAttribute {
    pub key: String,
    /// `None` for an attribute left empty.
    pub value: Option<String>,
    /// The line on which the attribute stands.
    pub line_number: usize,
    /// The attribute's text, as shown in error messages.
    pub snippet: String,
}

/// A calendar date: year, month, day.
pub type Date = (i32, u32, u32);

/// What a release manifest sets through the options read here.
pub struct ReleaseManifestOptions {
    pub release_date: Option<Date>,
    pub title: Option<String>,
    pub unlisted_release: bool,
    /// The release's main artists, by name, where the manifest gives them.
    pub release_artists: Vec<String>,
}

#[verifier::ext_equal]
pub struct ReleaseManifestOptionsView {
    pub release_date: Option<Date>,
    pub title: Option<Seq<char>>,
    pub unlisted_release: bool,
    pub release_artists: Seq<Seq<char>>,
}

impl View for ReleaseManifestOptions {
    type V = ReleaseManifestOptionsView;

    open spec fn view(&self) -> ReleaseManifestOptionsView {
        ReleaseManifestOptionsView {
            release_date: self.release_date,
            title: opt_view(self.title),
            unlisted_release: self.unlisted_release,
            release_artists: views(self.release_artists@),
        }
    }
}

/// The name for what `NaiveDate::parse_from_str(value, "%Y-%m-%d")` gives:
/// the date as year, month and day, or the text of the parse error.
pub uninterp spec fn parsed_date(value: Seq<char>) -> Result<Date, Seq<char>>;

/// `chrono::NaiveDate::parse_from_str` with the format "%Y-%m-%d": the
/// date read from `value`, or the error's text.
#[verifier::external_body]
fn parse_date(value: &str) -> (date: Result<Date, String>)
    ensures
        match date {
            Ok(d) => parsed_date(value@) == Ok::<Date, Seq<char>>(d),
            Err(e) => parsed_date(value@) == Err::<Date, Seq<char>>(e@),
        },
{
    match chrono::NaiveDate::parse_from_str(value, "%Y-%m-%d") {
        Ok(date) => Ok((date.year(), date.month(), date.day())),
        Err(err) => Err(err.to_string()),
    }
}

/// An error about a manifest element: where it stands, its text, and what
/// is wrong.
pub open spec fn element_error_message(
    manifest_path: Seq<char>,
    line_number: nat,
    snippet: Seq<char>,
    error: Seq<char>,
) -> Seq<char> {
    "Error in "@ + manifest_path + ":"@ + decimal_string(line_number) + ":\n\n"@ + snippet + "\n\n"@ + error
}

/// An error about a manifest element, with its place and text.
pub fn element_error_with_snippet(element: &ManifestElement, manifest_path: &str, error: &str) -> (message: String)
    ensures
        message@ == element_error_message(manifest_path@, element.line_number as nat, element.snippet@, error@),
{
    let mut message = String::from_str("Error in ");
    message.append(manifest_path);
    message.append(":");
    push_decimal(&mut message, element.line_number as u64);
    message.append(":\n\n");
    message.append(element.snippet.as_str());
    message.append("\n\n");
    message.append(error);
    message
}

/// An error about an attribute of a manifest field, with its place and
/// text.
pub fn attribute_error_with_snippet(attribute: &ManifestAttribute, manifest_path: &str, error: &str) -> (message: String)
    ensures
        message@ == element_error_message(manifest_path@, attribute.line_number as nat, attribute.snippet@, error@),
{
    let mut message = String::from_str("Error in ");
    message.append(manifest_path);
    message.append(":");
    push_decimal(&mut message, attribute.line_number as u64);
    message.append(":\n\n");
    message.append(attribute.snippet.as_str());
    message.append("\n\n");
    message.append(error);
    message
}

pub const DATE_SHAPE_ERROR: &'static str = "date needs to be provided as a field with a value following the pattern YYYY-MM-DD, e.g.: 'date: 1999-31-12'";

pub const RELEASE_ARTIST_SHAPE_ERROR: &'static str = "release_artist needs to be provided as a field with a value, e.g.: 'release_artist: Alice'\n\nFor multiple artists specify the release_artists field:\n\nrelease_artists:\n- Alice\n- Bob";

pub const RELEASE_ARTISTS_SHAPE_ERROR: &'static str = "release_artists needs to be provided as a field with items, e.g.:\n\nrelease_artists:\n- Alice\n- Bob";

pub const TITLE_SHAPE_ERROR: &'static str = "title needs to be provided as a field with a value, e.g.: 'title: Demotape'";

pub const UNLISTED_SHAPE_ERROR: &'static str = "unlisted needs to be provided as a flag, that is, exactly as 'unlisted' (without colon and without value)";

/// The message for a date value that does not parse.
pub open spec fn invalid_date_message(value: Seq<char>, error: Seq<char>) -> Seq<char> {
    "Invalid date value '"@ + value + "': "@ + error
}

/// The values of the items that have one, in order.
pub open spec fn item_values(items: Seq<Option<String>>) -> Seq<Seq<char>>
    decreases items.len(),
{
    if items.len() == 0 {
        seq![]
    } else {
        match items.last() {
            Some(v) => item_values(items.drop_last()).push(v@),
            None => item_values(items.drop_last()),
        }
    }
}

/// What reading an element as a release-only option does: whether its key
/// is one of these options, the options afterwards, and the errors it adds.
pub open spec fn spec_read_release_option(
    element: ManifestElement,
    manifest_path: Seq<char>,
    options: ReleaseManifestOptionsView,
) -> (bool, ReleaseManifestOptionsView, Seq<Seq<char>>) {
    let key = element.key@;
    let error = |message: Seq<char>|
        seq![element_error_message(manifest_path, element.line_number as nat, element.snippet@, message)];
    if key == "date"@ {
        match element.field_value {
            Some(Some(v)) => match parsed_date(v@) {
                Ok(d) => (true, ReleaseManifestOptionsView { release_date: Some(d), ..options }, seq![]),
                Err(e) => (true, options, error(invalid_date_message(v@, e))),
            },
            Some(None) => (true, ReleaseManifestOptionsView { release_date: None, ..options }, seq![]),
            None => (true, options, error(DATE_SHAPE_ERROR@)),
        }
    } else if key == "release_artist"@ {
        match element.field_value {
            Some(Some(v)) => (true, ReleaseManifestOptionsView { release_artists: seq![v@], ..options }, seq![]),
            Some(None) => (true, options, seq![]),
            None => (true, options, error(RELEASE_ARTIST_SHAPE_ERROR@)),
        }
    } else if key == "release_artists"@ {
        match element.field_items {
            Some(items) => (
                true,
                ReleaseManifestOptionsView { release_artists: item_values(items@), ..options },
                seq![],
            ),
            None => (true, options, error(RELEASE_ARTISTS_SHAPE_ERROR@)),
        }
    } else if key == "title"@ {
        match element.field_value {
            Some(Some(v)) => (true, ReleaseManifestOptionsView { title: Some(v@), ..options }, seq![]),
            Some(None) => (true, options, seq![]),
            None => (true, options, error(TITLE_SHAPE_ERROR@)),
        }
    } else if key == "unlisted"@ {
        if element.is_flag {
            (true, ReleaseManifestOptionsView { unlisted_release: true, ..options }, seq![])
        } else {
            (true, options, error(UNLISTED_SHAPE_ERROR@))
        }
    } else {
        (false, options, seq![])
    }
}

pub(crate) fn push_element_error(errors: &mut Vec<String>, element: &ManifestElement, manifest_path: &str, error: &str)
    ensures
        views(final(errors)@) == views(old(errors)@).push(
            element_error_message(manifest_path@, element.line_number as nat, element.snippet@, error@),
        ),
{
    let ghost before = errors@;
    errors.push(element_error_with_snippet(element, manifest_path, error));
    assert(views(errors@) =~= views(before).push(
        element_error_message(manifest_path@, element.line_number as nat, element.snippet@, error@),
    ));
}

pub(crate) fn values_of_items(items: &Vec<Option<String>>) -> (values: Vec<String>)
    ensures
        views(values@) == item_values(items@),
{
    let mut values: Vec<String> = Vec::new();
    let mut i: usize = 0;
    while i < items.len()
        invariant
            i <= items@.len(),
            views(values@) == item_values(items@.take(i as int)),
        decreases items@.len() - i,
    {
        proof {
            assert(items@.take(i + 1).drop_last() =~= items@.take(i as int));
        }
        match &items[i] {
            Some(v) => {
                let ghost before = values@;
                values.push(v.clone());
                assert(views(values@) =~= views(before).push(v@));
            },
            None => {},
        }
        i = i + 1;
    }
    assert(items@.take(items@.len() as int) =~= items@);
    values
}

/// Reads an element of a release manifest as one of the options that only
/// release manifests hold. Returns whether its key is one of them; where it
/// is not, nothing changes. A value of the wrong shape, or a date that does
/// not parse, adds an error (with the element's place and text) and changes
/// nothing; a field left empty unsets the date and is otherwise ignored.
pub fn read_release_option(
    element: &ManifestElement,
    manifest_path: &str,
    options: &mut ReleaseManifestOptions,
    errors: &mut Vec<String>,
) -> (handled: bool)
    ensures
        ({
            let (h, o, e) = spec_read_release_option(*element, manifest_path@, old(options)@);
            &&& handled == h
            &&& final(options)@ == o
            &&& views(final(errors)@) == views(old(errors)@) + e
        }),
{
    let ghost before = errors@;
    let key = element.key.as_str();
    if str_equal(key, "date") {
        match &element.field_value {
            Some(Some(v)) => match parse_date(v.as_str()) {
                Ok(d) => {
                    options.release_date = Some(d);
                },
                Err(e) => {
                    let mut message = String::from_str("Invalid date value '");
                    message.append(v.as_str());
                    message.append("': ");
                    message.append(e.as_str());
                    push_element_error(errors, element, manifest_path, message.as_str());
                },
            },
            Some(None) => {
                options.release_date = None;
            },
            None => push_element_error(errors, element, manifest_path, DATE_SHAPE_ERROR),
        }
    } else if str_equal(key, "release_artist") {
        match &element.field_value {
            Some(Some(v)) => {
                let mut artists: Vec<String> = Vec::new();
                artists.push(v.clone());
                assert(views(artists@) =~= seq![v@]);
                options.release_artists = artists;
            },
            Some(None) => {},
            None => push_element_error(errors, element, manifest_path, RELEASE_ARTIST_SHAPE_ERROR),
        }
    } else if str_equal(key, "release_artists") {
        match &element.field_items {
            Some(items) => {
                options.release_artists = values_of_items(items);
            },
            None => push_element_error(errors, element, manifest_path, RELEASE_ARTISTS_SHAPE_ERROR),
        }
    } else if str_equal(key, "title") {
        match &element.field_value {
            Some(Some(v)) => {
                options.title = Some(v.clone());
            },
            Some(None) => {},
            None => push_element_error(errors, element, manifest_path, TITLE_SHAPE_ERROR),
        }
    } else if str_equal(key, "unlisted") {
        if element.is_flag {
            options.unlisted_release = true;
        } else {
            push_element_error(errors, element, manifest_path, UNLISTED_SHAPE_ERROR);
        }
    } else {
        assert(views(errors@) =~= views(before) + Seq::<Seq<char>>::empty());
        return false;
    }
    proof {
        let (h, o, e) = spec_read_release_option(*element, manifest_path@, old(options)@);
        assert(views(errors@) =~= views(before) + e);
        assert(options@ =~= o);
    }
    true
}

/// What the options shared by artist, catalog, release and track manifests
/// set, as far as their values are plain (the toggles, the label of the
/// "more" section and the track artists).
pub struct SharedOverrides {
    pub copy_link: bool,
    pub embedding: bool,
    pub more_label: Option<String>,
    pub speed_controls: bool,
    pub track_artists: Vec<String>,
    pub track_extras: bool,
}

#[verifier::ext_equal]
pub struct SharedOverridesView {
    pub copy_link: bool,
    pub embedding: bool,
    pub more_label: Option<Seq<char>>,
    pub speed_controls: bool,
    pub track_artists: Seq<Seq<char>>,
    pub track_extras: bool,
}

impl View for SharedOverrides {
    type V = SharedOverridesView;

    open spec fn view(&self) -> SharedOverridesView {
        SharedOverridesView {
            copy_link: self.copy_link,
            embedding: self.embedding,
            more_label: opt_view(self.more_label),
            speed_controls: self.speed_controls,
            track_artists: views(self.track_artists@),
            track_extras: self.track_extras,
        }
    }
}

/// The message for a toggle value other than "enabled" or "disabled": the
/// fixed text, or the text with the value quoted in it.
pub open spec fn toggle_invalid_message(before: Seq<char>, with_value: bool, after: Seq<char>, value: Seq<char>) -> Seq<char> {
    if with_value {
        before + value + after
    } else {
        before
    }
}

/// Reading a toggle option ("enabled" or "disabled"): the new setting and
/// the message of the error it gives, if any.
pub open spec fn toggle_outcome(
    field_value: Option<Option<String>>,
    current: bool,
    before: Seq<char>,
    with_value: bool,
    after: Seq<char>,
    shape: Seq<char>,
) -> (bool, Option<Seq<char>>) {
    match field_value {
        Some(Some(v)) => if v@ == "enabled"@ {
            (true, None)
        } else if v@ == "disabled"@ {
            (false, None)
        } else {
            (current, Some(toggle_invalid_message(before, with_value, after, v@)))
        },
        Some(None) => (current, None),
        None => (current, Some(shape)),
    }
}

/// The errors of an element for an optional message.
pub open spec fn errors_for(element: ManifestElement, manifest_path: Seq<char>, message: Option<Seq<char>>) -> Seq<Seq<char>> {
    match message {
        Some(m) => seq![element_error_message(manifest_path, element.line_number as nat, element.snippet@, m)],
        None => seq![],
    }
}

fn read_toggle(
    element: &ManifestElement,
    manifest_path: &str,
    setting: &mut bool,
    before: &str,
    with_value: bool,
    after: &str,
    shape: &str,
    errors: &mut Vec<String>,
)
    ensures
        ({
            let (value, message) = toggle_outcome(element.field_value, *old(setting), before@, with_value, after@, shape@);
            &&& *final(setting) == value
            &&& views(final(errors)@) == views(old(errors)@) + errors_for(*element, manifest_path@, message)
        }),
{
    let ghost start = views(errors@);
    match &element.field_value {
        Some(Some(v)) => {
            if str_equal(v.as_str(), "enabled") {
                *setting = true;
            } else if str_equal(v.as_str(), "disabled") {
                *setting = false;
            } else {
                let mut message = String::from_str(before);
                if with_value {
                    message.append(v.as_str());
                    message.append(after);
                }
                push_element_error(errors, element, manifest_path, message.as_str());
            }
        },
        Some(None) => {},
        None => push_element_error(errors, element, manifest_path, shape),
    }
    proof {
        let (value, message) = toggle_outcome(element.field_value, *old(setting), before@, with_value, after@, shape@);
        assert(views(errors@) =~= start + errors_for(*element, manifest_path@, message));
    }
}

pub const COPY_LINK_INVALID: &'static str = "This copy_link setting was not recognized (supported values are 'enabled' and 'disabled')";

pub const COPY_LINK_SHAPE_ERROR: &'static str = "copy_link needs to be provided as a field with a value, e.g.: 'copy_link: disabled'";

pub const EMBEDDING_INVALID_BEFORE: &'static str = "The value '";

pub const EMBEDDING_INVALID_AFTER: &'static str = "' is not recognized for the embedding option, allowed values are 'enabled' and 'disabled'";

pub const EMBEDDING_SHAPE_ERROR: &'static str = "embedding needs to be provided as a field with the value 'enabled' or 'disabled', e.g.: 'embedding: enabled'";

pub const VALUE_NOT_SUPPORTED_BEFORE: &'static str = "The value '";

pub const SPEED_CONTROLS_INVALID_AFTER: &'static str = "' is not supported (allowed are: 'enabled' or 'disabled'";

pub const SPEED_CONTROLS_SHAPE_ERROR: &'static str = "speed_controls needs to be provided as a field with the value 'enabled' or 'disabled' (e.g. 'speed_controls: enabled')";

pub const TRACK_EXTRAS_INVALID_AFTER: &'static str = "' is not supported (allowed are: 'disabled' or 'enabled'";

pub const TRACK_EXTRAS_SHAPE_ERROR: &'static str = "track_extras needs to be provided as a field with the value 'disabled' or 'enabled' (e.g. 'track_extras: disabled')";

pub const MORE_LABEL_SHAPE_ERROR: &'static str = "more_label needs to be provided as a field with a value, e.g.: 'more_label: About'";

pub const TRACK_ARTIST_SHAPE_ERROR: &'static str = "track_artist needs to be provided as a field with a value, e.g.: 'track_artist: Alice'";

pub const TRACK_ARTISTS_SHAPE_ERROR: &'static str = "track_artists needs to be provided as a field with items, e.g.:\n\ntrack_artists:\n- Alice\n- Bob'";

/// What reading an element as one of the plain shared options does: whether
/// its key is one of them, the overrides afterwards, and the errors added.
pub open spec fn spec_read_shared_option(
    element: ManifestElement,
    manifest_path: Seq<char>,
    o: SharedOverridesView,
) -> (bool, SharedOverridesView, Seq<Seq<char>>) {
    let key = element.key@;
    let fv = element.field_value;
    if key == "copy_link"@ {
        let (v, m) = toggle_outcome(fv, o.copy_link, COPY_LINK_INVALID@, false, seq![], COPY_LINK_SHAPE_ERROR@);
        (true, SharedOverridesView { copy_link: v, ..o }, errors_for(element, manifest_path, m))
    } else if key == "embedding"@ {
        let (v, m) = toggle_outcome(fv, o.embedding, EMBEDDING_INVALID_BEFORE@, true, EMBEDDING_INVALID_AFTER@, EMBEDDING_SHAPE_ERROR@);
        (true, SharedOverridesView { embedding: v, ..o }, errors_for(element, manifest_path, m))
    } else if key == "more_label"@ {
        match fv {
            Some(Some(v)) => (true, SharedOverridesView { more_label: Some(v@), ..o }, seq![]),
            Some(None) => (true, o, seq![]),
            None => (true, o, errors_for(element, manifest_path, Some(MORE_LABEL_SHAPE_ERROR@))),
        }
    } else if key == "speed_controls"@ {
        let (v, m) = toggle_outcome(fv, o.speed_controls, VALUE_NOT_SUPPORTED_BEFORE@, true, SPEED_CONTROLS_INVALID_AFTER@, SPEED_CONTROLS_SHAPE_ERROR@);
        (true, SharedOverridesView { speed_controls: v, ..o }, errors_for(element, manifest_path, m))
    } else if key == "track_artist"@ {
        match fv {
            Some(Some(v)) => (true, SharedOverridesView { track_artists: seq![v@], ..o }, seq![]),
            Some(None) => (true, o, seq![]),
            None => (true, o, errors_for(element, manifest_path, Some(TRACK_ARTIST_SHAPE_ERROR@))),
        }
    } else if key == "track_artists"@ {
        match element.field_items {
            Some(items) => (true, SharedOverridesView { track_artists: item_values(items@), ..o }, seq![]),
            None => (true, o, errors_for(element, manifest_path, Some(TRACK_ARTISTS_SHAPE_ERROR@))),
        }
    } else if key == "track_extras"@ {
        let (v, m) = toggle_outcome(fv, o.track_extras, VALUE_NOT_SUPPORTED_BEFORE@, true, TRACK_EXTRAS_INVALID_AFTER@, TRACK_EXTRAS_SHAPE_ERROR@);
        (true, SharedOverridesView { track_extras: v, ..o }, errors_for(element, manifest_path, m))
    } else {
        (false, o, seq![])
    }
}

/// Reads an element of any manifest as one of the shared options whose
/// values are plain: the toggles `copy_link`, `embedding`, `speed_controls`
/// and `track_extras` ("enabled" or "disabled"), `more_label`,
/// `track_artist` and `track_artists`. Returns whether its key is one of
/// them; where it is not, nothing changes. A value of the wrong shape or an
/// unknown toggle value adds an error and changes nothing; a field left
/// empty changes nothing.
pub fn read_shared_option(
    element: &ManifestElement,
    manifest_path: &str,
    overrides: &mut SharedOverrides,
    errors: &mut Vec<String>,
) -> (handled: bool)
    ensures
        ({
            let (h, o, e) = spec_read_shared_option(*element, manifest_path@, old(overrides)@);
            &&& handled == h
            &&& final(overrides)@ == o
            &&& views(final(errors)@) == views(old(errors)@) + e
        }),
{
    let ghost before = views(errors@);
    let key = element.key.as_str();
    if str_equal(key, "copy_link") {
        proof { reveal_strlit(""); }
        read_toggle(element, manifest_path, &mut overrides.copy_link, COPY_LINK_INVALID, false, "", COPY_LINK_SHAPE_ERROR, errors);
    } else if str_equal(key, "embedding") {
        read_toggle(element, manifest_path, &mut overrides.embedding, EMBEDDING_INVALID_BEFORE, true, EMBEDDING_INVALID_AFTER, EMBEDDING_SHAPE_ERROR, errors);
    } else if str_equal(key, "more_label") {
        match &element.field_value {
            Some(Some(v)) => {
                overrides.more_label = Some(v.clone());
            },
            Some(None) => {},
            None => push_element_error(errors, element, manifest_path, MORE_LABEL_SHAPE_ERROR),
        }
    } else if str_equal(key, "speed_controls") {
        read_toggle(element, manifest_path, &mut overrides.speed_controls, VALUE_NOT_SUPPORTED_BEFORE, true, SPEED_CONTROLS_INVALID_AFTER, SPEED_CONTROLS_SHAPE_ERROR, errors);
    } else if str_equal(key, "track_artist") {
        match &element.field_value {
            Some(Some(v)) => {
                let mut artists: Vec<String> = Vec::new();
                artists.push(v.clone());
                assert(views(artists@) =~= seq![v@]);
                overrides.track_artists = artists;
            },
            Some(None) => {},
            None => push_element_error(errors, element, manifest_path, TRACK_ARTIST_SHAPE_ERROR),
        }
    } else if str_equal(key, "track_artists") {
        match &element.field_items {
            Some(items) => {
                overrides.track_artists = values_of_items(items);
            },
            None => push_element_error(errors, element, manifest_path, TRACK_ARTISTS_SHAPE_ERROR),
        }
    } else if str_equal(key, "track_extras") {
        read_toggle(element, manifest_path, &mut overrides.track_extras, VALUE_NOT_SUPPORTED_BEFORE, true, TRACK_EXTRAS_INVALID_AFTER, TRACK_EXTRAS_SHAPE_ERROR, errors);
    } else {
        assert(views(errors@) =~= before + Seq::<Seq<char>>::empty());
        return false;
    }
    proof {
        let (h, o, e) = spec_read_shared_option(*element, manifest_path@, old(overrides)@);
        assert(views(errors@) =~= before + e);
        assert(overrides@ =~= o);
    }
    true
}

pub const EXTRA_DOWNLOADS_RENAMED_WARNING: &'static str = "The 'extra_downloads' option is now called 'release_extras' - it works exactly the same though. For the time being 'extra_downloads' will still work, but it won't forever - make sure to update at some point. Note that in addition to 'release_extras', there is now also a 'track_extras' option!";

pub const RELEASE_EXTRAS_SHAPE_ERROR: &'static str = "release_extras needs to be provided either as a field with a value (e.g. 'release_extras: disabled') or as a field with items, e.g.:\n\nrelease_extras:\n- bundled\n- separate\n\n(The available options are 'bundled', 'disabled' and 'separate')";

pub const EXTRAS_INVALID_AFTER: &'static str = "' is not supported (allowed are: 'bundled', 'disabled' or 'separate'";

/// The message for an unknown release extras value.
pub open spec fn extras_invalid_message(value: Seq<char>) -> Seq<char> {
    VALUE_NOT_SUPPORTED_BEFORE@ + value + EXTRAS_INVALID_AFTER@
}

/// Release extras as a single value sets them: `None` for an unknown value.
pub open spec fn extras_of_value(value: Seq<char>) -> Option<ExtraDownloads> {
    if value == "bundled"@ {
        Some(ExtraDownloads { bundled: true, separate: false })
    } else if value == "disabled"@ {
        Some(ExtraDownloads { bundled: false, separate: false })
    } else if value == "separate"@ {
        Some(ExtraDownloads { bundled: false, separate: true })
    } else {
        None
    }
}

/// Release extras as a list of items sets them, starting from none: each
/// "bundled" or "separate" adds that way of offering them, "disabled"
/// clears both; with the messages of unknown values, in order.
pub open spec fn extras_of_items(items: Seq<Option<String>>) -> (ExtraDownloads, Seq<Seq<char>>)
    decreases items.len(),
{
    if items.len() == 0 {
        (ExtraDownloads { bundled: false, separate: false }, seq![])
    } else {
        let (e, messages) = extras_of_items(items.drop_last());
        match items.last() {
            Some(v) => if v@ == "bundled"@ {
                (ExtraDownloads { bundled: true, ..e }, messages)
            } else if v@ == "disabled"@ {
                (ExtraDownloads { bundled: false, separate: false }, messages)
            } else if v@ == "separate"@ {
                (ExtraDownloads { separate: true, ..e }, messages)
            } else {
                (e, messages.push(extras_invalid_message(v@)))
            },
            None => (e, messages),
        }
    }
}

/// The errors about an element for each message, in order.
pub open spec fn element_errors(element: ManifestElement, manifest_path: Seq<char>, messages: Seq<Seq<char>>) -> Seq<Seq<char>> {
    messages.map_values(|m: Seq<char>| element_error_message(manifest_path, element.line_number as nat, element.snippet@, m))
}

/// What reading `release_extras` (or its old name `extra_downloads`, which
/// also warns) does: the extras afterwards, the errors and the warnings.
pub open spec fn spec_read_release_extras_option(
    element: ManifestElement,
    manifest_path: Seq<char>,
    extras: ExtraDownloads,
) -> (bool, ExtraDownloads, Seq<Seq<char>>, Seq<Seq<char>>) {
    let key = element.key@;
    if key == "release_extras"@ || key == "extra_downloads"@ {
        let warnings = if key == "extra_downloads"@ {
            element_errors(element, manifest_path, seq![EXTRA_DOWNLOADS_RENAMED_WARNING@])
        } else {
            seq![]
        };
        match element.field_value {
            Some(Some(v)) => match extras_of_value(v@) {
                Some(e) => (true, e, seq![], warnings),
                None => (true, extras, element_errors(element, manifest_path, seq![extras_invalid_message(v@)]), warnings),
            },
            Some(None) => (true, extras, seq![], warnings),
            None => match element.field_items {
                Some(items) => {
                    let (e, messages) = extras_of_items(items@);
                    (true, e, element_errors(element, manifest_path, messages), warnings)
                },
                None => (true, extras, element_errors(element, manifest_path, seq![RELEASE_EXTRAS_SHAPE_ERROR@]), warnings),
            },
        }
    } else {
        (false, extras, seq![], seq![])
    }
}

fn extras_invalid(value: &str) -> (message: String)
    ensures
        message@ == extras_invalid_message(value@),
{
    let mut message = String::from_str(VALUE_NOT_SUPPORTED_BEFORE);
    message.append(value);
    message.append(EXTRAS_INVALID_AFTER);
    message
}

/// Reads an element as the `release_extras` option (or its old name
/// `extra_downloads`, which adds a warning that it was renamed). Returns
/// whether the key is one of these; where it is not, nothing changes. A
/// single value "bundled", "disabled" or "separate" sets the extras; a list
/// of items sets them from none, item by item; unknown values add errors.
pub fn read_release_extras_option(
    element: &ManifestElement,
    manifest_path: &str,
    extras: &mut ExtraDownloads,
    errors: &mut Vec<String>,
    warnings: &mut Vec<String>,
) -> (handled: bool)
    ensures
        ({
            let (h, x, e, w) = spec_read_release_extras_option(*element, manifest_path@, *old(extras));
            &&& handled == h
            &&& *final(extras) == x
            &&& views(final(errors)@) == views(old(errors)@) + e
            &&& views(final(warnings)@) == views(old(warnings)@) + w
        }),
{
    let ghost errors_before = views(errors@);
    let ghost warnings_before = views(warnings@);
    let key = element.key.as_str();
    let renamed = str_equal(key, "extra_downloads");
    if !renamed && !str_equal(key, "release_extras") {
        assert(views(errors@) =~= errors_before + Seq::<Seq<char>>::empty());
        assert(views(warnings@) =~= warnings_before + Seq::<Seq<char>>::empty());
        return false;
    }
    if renamed {
        push_element_error(warnings, element, manifest_path, EXTRA_DOWNLOADS_RENAMED_WARNING);
    }
    assert(views(warnings@) =~= warnings_before + if renamed {
        element_errors(*element, manifest_path@, seq![EXTRA_DOWNLOADS_RENAMED_WARNING@])
    } else {
        Seq::<Seq<char>>::empty()
    });
    match &element.field_value {
        Some(Some(v)) => {
            if str_equal(v.as_str(), "bundled") {
                *extras = ExtraDownloads { bundled: true, separate: false };
            } else if str_equal(v.as_str(), "disabled") {
                *extras = ExtraDownloads { bundled: false, separate: false };
            } else if str_equal(v.as_str(), "separate") {
                *extras = ExtraDownloads { bundled: false, separate: true };
            } else {
                let message = extras_invalid(v.as_str());
                push_element_error(errors, element, manifest_path, message.as_str());
            }
        },
        Some(None) => {},
        None => match &element.field_items {
            Some(items) => {
                let ghost all = items@;
                let mut current = ExtraDownloads { bundled: false, separate: false };
                let mut i: usize = 0;
                while i < items.len()
                    invariant
                        all == items@,
                        i <= all.len(),
                        current == extras_of_items(all.take(i as int)).0,
                        views(errors@) == errors_before + element_errors(*element, manifest_path@, extras_of_items(all.take(i as int)).1),
                    decreases all.len() - i,
                {
                    proof {
                        assert(all.take(i + 1).drop_last() =~= all.take(i as int));
                        assert(all.take(i + 1).last() == all[i as int]);
                    }
                    let ghost messages = extras_of_items(all.take(i as int)).1;
                    match &items[i] {
                        Some(v) => {
                            if str_equal(v.as_str(), "bundled") {
                                current.bundled = true;
                            } else if str_equal(v.as_str(), "disabled") {
                                current = ExtraDownloads { bundled: false, separate: false };
                            } else if str_equal(v.as_str(), "separate") {
                                current.separate = true;
                            } else {
                                let message = extras_invalid(v.as_str());
                                push_element_error(errors, element, manifest_path, message.as_str());
                                assert(element_errors(*element, manifest_path@, messages.push(extras_invalid_message(v@)))
                                    =~= element_errors(*element, manifest_path@, messages).push(
                                    element_error_message(manifest_path@, element.line_number as nat, element.snippet@, extras_invalid_message(v@)),
                                ));
                            }
                        },
                        None => {},
                    }
                    i = i + 1;
                }
                assert(all.take(all.len() as int) =~= all);
                *extras = current;
            },
            None => push_element_error(errors, element, manifest_path, RELEASE_EXTRAS_SHAPE_ERROR),
        },
    }
    proof {
        let (h, x, e, w) = spec_read_release_extras_option(*element, manifest_path@, *old(extras));
        assert(views(errors@) =~= errors_before + e);
    }
    true
}

/// The name for what `url::Url::parse` gives on a text: `None` where it
/// parses as a URL, else the text of the parse error.
pub uninterp spec fn url_parse_error(value: Seq<char>) -> Option<Seq<char>>;

/// `url::Url::parse`: whether `value` parses as a URL, and if not, the
/// error's text.
#[verifier::external_body]
pub(crate) fn check_url(value: &str) -> (error: Option<String>)
    ensures
        match error {
            Some(e) => url_parse_error(value@) == Some(e@),
            None => url_parse_error(value@) == None::<Seq<char>>,
        },
{
    match url::Url::parse(value) {
        Ok(_) => None,
        Err(err) => Some(err.to_string()),
    }
}

pub const RELEASE_DOWNLOAD_ACCESS_INVALID: &'static str = "This release_download_access setting was not recognized (supported values are 'code', 'disabled', 'free', 'paycurtain' or an external url like 'https://example.com')";

pub const RELEASE_DOWNLOAD_ACCESS_SHAPE_ERROR: &'static str = "release_download_access needs to be provided as a field with the value 'code', 'disabled', 'free', 'paycurtain' or an external url like 'https://example.com', e.g.: 'release_download_access: code'";

pub const TRACK_DOWNLOAD_ACCESS_INVALID: &'static str = "This track_download_access setting was not recognized (supported values are 'code', 'disabled', 'free', 'paycurtain' or an external url like 'https://example.com')";

pub const TRACK_DOWNLOAD_ACCESS_SHAPE_ERROR: &'static str = "track_download_access needs to be provided as a field with the value 'code', 'disabled', 'free', 'paycurtain' or an external url like 'https://example.com', e.g.: 'track_download_access: code'";

/// The message for an external downloads url that does not parse.
pub open spec fn invalid_url_message(error: Seq<char>) -> Seq<char> {
    "This external downloads url is somehow not valid ("@ + error + ")"@
}

/// Reading a download access value: the access it sets (`None` for none)
/// and the message of the error it gives (`None` for none).
pub open spec fn access_outcome(
    field_value: Option<Option<String>>,
    invalid: Seq<char>,
    shape: Seq<char>,
) -> (Option<DownloadAccessOption>, Option<Seq<char>>) {
    match field_value {
        Some(Some(v)) => if v@ == "code"@ {
            (Some(DownloadAccessOption::Code), None)
        } else if v@ == "disabled"@ {
            (Some(DownloadAccessOption::Disabled), None)
        } else if v@ == "free"@ {
            (Some(DownloadAccessOption::Free), None)
        } else if v@ == "paycurtain"@ {
            (Some(DownloadAccessOption::Paycurtain), None)
        } else if starts_with(v@, "http://"@) || starts_with(v@, "https://"@) {
            match url_parse_error(v@) {
                None => (Some(DownloadAccessOption::External { link: v }), None),
                Some(e) => (None, Some(invalid_url_message(e))),
            }
        } else {
            (None, Some(invalid))
        },
        Some(None) => (None, None),
        None => (None, Some(shape)),
    }
}

fn read_access(
    element: &ManifestElement,
    manifest_path: &str,
    access: &mut DownloadAccessOption,
    invalid: &str,
    shape: &str,
    errors: &mut Vec<String>,
) -> (assigned: bool)
    ensures
        ({
            let (set, message) = access_outcome(element.field_value, invalid@, shape@);
            &&& assigned == set.is_some()
            &&& *final(access) == match set {
                Some(a) => a,
                None => *old(access),
            }
            &&& views(final(errors)@) == views(old(errors)@) + errors_for(*element, manifest_path@, message)
        }),
{
    let ghost start = views(errors@);
    let mut assigned = false;
    match &element.field_value {
        Some(Some(v)) => {
            let value = v.as_str();
            if str_equal(value, "code") {
                *access = DownloadAccessOption::Code;
                assigned = true;
            } else if str_equal(value, "disabled") {
                *access = DownloadAccessOption::Disabled;
                assigned = true;
            } else if str_equal(value, "free") {
                *access = DownloadAccessOption::Free;
                assigned = true;
            } else if str_equal(value, "paycurtain") {
                *access = DownloadAccessOption::Paycurtain;
                assigned = true;
            } else if starts_with_str(value, "http://") || starts_with_str(value, "https://") {
                match check_url(value) {
                    None => {
                        *access = DownloadAccessOption::External { link: v.clone() };
                        assigned = true;
                    },
                    Some(e) => {
                        let mut message = String::from_str("This external downloads url is somehow not valid (");
                        message.append(e.as_str());
                        message.append(")");
                        push_element_error(errors, element, manifest_path, message.as_str());
                    },
                }
            } else {
                push_element_error(errors, element, manifest_path, invalid);
            }
        },
        Some(None) => {},
        None => push_element_error(errors, element, manifest_path, shape),
    }
    proof {
        let (set, message) = access_outcome(element.field_value, invalid@, shape@);
        assert(views(errors@) =~= start + errors_for(*element, manifest_path@, message));
    }
    assigned
}

/// What reading an element as `release_download_access` or
/// `track_download_access` does: whether the key is one of them, the
/// release's and the tracks' download access afterwards, and the errors.
pub open spec fn spec_read_download_access_option(
    element: ManifestElement,
    manifest_path: Seq<char>,
    release_access: DownloadAccessOption,
    track_access: DownloadAccessOption,
) -> (bool, DownloadAccessOption, DownloadAccessOption, Seq<Seq<char>>) {
    let key = element.key@;
    if key == "release_download_access"@ {
        let (set, m) = access_outcome(element.field_value, RELEASE_DOWNLOAD_ACCESS_INVALID@, RELEASE_DOWNLOAD_ACCESS_SHAPE_ERROR@);
        (true, match set { Some(a) => a, None => release_access }, track_access, errors_for(element, manifest_path, m))
    } else if key == "track_download_access"@ {
        let (set, m) = access_outcome(element.field_value, TRACK_DOWNLOAD_ACCESS_INVALID@, TRACK_DOWNLOAD_ACCESS_SHAPE_ERROR@);
        (true, release_access, match set { Some(a) => a, None => track_access }, errors_for(element, manifest_path, m))
    } else {
        (false, release_access, track_access, seq![])
    }
}

/// Reads an element as `release_download_access` or
/// `track_download_access`: "code", "disabled", "free", "paycurtain", or an
/// external http(s) URL that parses. Returns whether the key is one of
/// these; where it is not, nothing changes. Other values, URLs that do not
/// parse and values of the wrong shape add an error and change nothing.
pub fn read_download_access_option(
    element: &ManifestElement,
    manifest_path: &str,
    release_access: &mut DownloadAccessOption,
    track_access: &mut DownloadAccessOption,
    errors: &mut Vec<String>,
) -> (handled: bool)
    ensures
        ({
            let (h, r, t, e) = spec_read_download_access_option(*element, manifest_path@, *old(release_access), *old(track_access));
            &&& handled == h
            &&& *final(release_access) == r
            &&& *final(track_access) == t
            &&& views(final(errors)@) == views(old(errors)@) + e
        }),
{
    let key = element.key.as_str();
    if str_equal(key, "release_download_access") {
        read_access(element, manifest_path, release_access, RELEASE_DOWNLOAD_ACCESS_INVALID, RELEASE_DOWNLOAD_ACCESS_SHAPE_ERROR, errors);
        true
    } else if str_equal(key, "track_download_access") {
        read_access(element, manifest_path, track_access, TRACK_DOWNLOAD_ACCESS_INVALID, TRACK_DOWNLOAD_ACCESS_SHAPE_ERROR, errors);
        true
    } else {
        assert(views(errors@) =~= views(old(errors)@) + Seq::<Seq<char>>::empty());
        false
    }
}


pub const DOWNLOADS_SPLIT_WARNING: &'static str = "The 'downloads' option was split into two: 'release_download_access' and 'track_download_access'. Depending on whether you have release and/or track downloads configured you should now use one or both of the two - in terms of the value you can provide for each of them it still works exactly the same as 'downloads' though. For the time being 'downloads' will still work, but it won't forever - make sure to update this at some point.";

pub const DOWNLOADS_INVALID: &'static str = "This downloads setting was not recognized (supported values are 'code', 'disabled', 'free', 'paycurtain' or an external url like 'https://example.com')";

pub const DOWNLOADS_SHAPE_ERROR: &'static str = "downloads needs to be provided as a field with the value 'code', 'disabled', 'free', 'paycurtain' or an external url like 'https://example.com', e.g.: 'downloads: code'";

fn copy_access(access: &DownloadAccessOption) -> (copy: DownloadAccessOption)
    ensures
        copy == *access,
{
    match access {
        DownloadAccessOption::Code => DownloadAccessOption::Code,
        DownloadAccessOption::Disabled => DownloadAccessOption::Disabled,
        DownloadAccessOption::External { link } => DownloadAccessOption::External { link: link.clone() },
        DownloadAccessOption::Free => DownloadAccessOption::Free,
        DownloadAccessOption::Paycurtain => DownloadAccessOption::Paycurtain,
    }
}

/// What reading an element as the older `downloads` option does: whether
/// the key is `downloads`, the release's and the tracks' download access
/// afterwards, the errors and the warnings.
pub open spec fn spec_read_downloads_option(
    element: ManifestElement,
    manifest_path: Seq<char>,
    release_access: DownloadAccessOption,
    track_access: DownloadAccessOption,
) -> (bool, DownloadAccessOption, DownloadAccessOption, Seq<Seq<char>>, Seq<Seq<char>>) {
    if element.key@ == "downloads"@ {
        let (set, m) = access_outcome(element.field_value, DOWNLOADS_INVALID@, DOWNLOADS_SHAPE_ERROR@);
        let warning = errors_for(element, manifest_path, Some(DOWNLOADS_SPLIT_WARNING@));
        match set {
            Some(a) => (true, a, a, errors_for(element, manifest_path, m), warning),
            None => (true, release_access, track_access, errors_for(element, manifest_path, m), warning),
        }
    } else {
        (false, release_access, track_access, seq![], seq![])
    }
}

/// Reads an element as `downloads`, the option that
/// `release_download_access` and `track_download_access` replace: it warns
/// that the option was split, and sets both to the value read, as either
/// of them would. Returns whether the key is `downloads`; where it is not,
/// nothing changes.
pub fn read_downloads_option(
    element: &ManifestElement,
    manifest_path: &str,
    release_access: &mut DownloadAccessOption,
    track_access: &mut DownloadAccessOption,
    errors: &mut Vec<String>,
    warnings: &mut Vec<String>,
) -> (handled: bool)
    ensures
        ({
            let (h, r, t, e, w) = spec_read_downloads_option(*element, manifest_path@, *old(release_access), *old(track_access));
            &&& handled == h
            &&& *final(release_access) == r
            &&& *final(track_access) == t
            &&& views(final(errors)@) == views(old(errors)@) + e
            &&& views(final(warnings)@) == views(old(warnings)@) + w
        }),
{
    let ghost errors_before = views(errors@);
    let ghost warnings_before = views(warnings@);
    if !str_equal(element.key.as_str(), "downloads") {
        assert(views(errors@) =~= errors_before + Seq::<Seq<char>>::empty());
        assert(views(warnings@) =~= warnings_before + Seq::<Seq<char>>::empty());
        return false;
    }
    push_element_error(warnings, element, manifest_path, DOWNLOADS_SPLIT_WARNING);
    assert(views(warnings@) =~= warnings_before + errors_for(*element, manifest_path@, Some(DOWNLOADS_SPLIT_WARNING@)));
    let mut access = DownloadAccessOption::Disabled;
    let assigned = read_access(element, manifest_path, &mut access, DOWNLOADS_INVALID, DOWNLOADS_SHAPE_ERROR, errors);
    if assigned {
        *track_access = copy_access(&access);
        *release_access = access;
    }
    true
}

pub const TRACK_TITLE_SHAPE_ERROR: &'static str = "title needs to be provided as a field with a value, e.g.: 'title: Interlude'";

/// What reading an element as the option that only a track manifest
/// (track.eno) holds, `title`, does: whether the key is `title`, the title
/// afterwards, and the errors.
pub open spec fn spec_read_track_option(
    element: ManifestElement,
    manifest_path: Seq<char>,
    title: Option<Seq<char>>,
) -> (bool, Option<Seq<char>>, Seq<Seq<char>>) {
    if element.key@ == "title"@ {
        match element.field_value {
            Some(Some(v)) => (true, Some(v@), seq![]),
            Some(None) => (true, title, seq![]),
            None => (true, title, errors_for(element, manifest_path, Some(TRACK_TITLE_SHAPE_ERROR@))),
        }
    } else {
        (false, title, seq![])
    }
}

/// Reads an element as a track manifest's `title`: a field whose value
/// replaces the title; an empty field changes nothing, and an element of
/// another shape adds an error. Returns whether the key is `title`; where
/// it is not, nothing changes.
pub fn read_track_option(
    element: &ManifestElement,
    manifest_path: &str,
    title: &mut Option<String>,
    errors: &mut Vec<String>,
) -> (handled: bool)
    ensures
        ({
            let (h, t, e) = spec_read_track_option(*element, manifest_path@, opt_view(*old(title)));
            &&& handled == h
            &&& opt_view(*final(title)) == t
            &&& views(final(errors)@) == views(old(errors)@) + e
        }),
{
    let ghost start = views(errors@);
    if !str_equal(element.key.as_str(), "title") {
        assert(views(errors@) =~= start + Seq::<Seq<char>>::empty());
        return false;
    }
    match &element.field_value {
        Some(Some(v)) => {
            *title = Some(v.clone());
            assert(views(errors@) =~= start + Seq::<Seq<char>>::empty());
        },
        Some(None) => {
            assert(views(errors@) =~= start + Seq::<Seq<char>>::empty());
        },
        None => {
            push_element_error(errors, element, manifest_path, TRACK_TITLE_SHAPE_ERROR);
            assert(views(errors@) =~= start + errors_for(*element, manifest_path@, Some(TRACK_TITLE_SHAPE_ERROR@)));
        },
    }
    true
}

/// The most characters a synopsis may have.
pub const MAX_SYNOPSIS_CHARS: usize = 256;

pub const SYNOPSIS_SHAPE_ERROR: &'static str = "synopsis needs to be provided as an embed, e.g.:\n-- synopsis\nThis is a synopsis\n--synopsis";

/// The error for a synopsis of `chars` characters, more than allowed.
pub open spec fn synopsis_too_long_message(chars: nat) -> Seq<char> {
    "Synopsis is too long ("@ + decimal_string(chars) + "/256 characters)"@
}

/// What reading an element as `synopsis` does: whether the key is
/// `synopsis`, the synopsis afterwards, and the errors.
pub open spec fn spec_read_synopsis_option(
    element: ManifestElement,
    manifest_path: Seq<char>,
    synopsis: Option<Seq<char>>,
) -> (bool, Option<Seq<char>>, Seq<Seq<char>>) {
    if element.key@ == "synopsis"@ {
        match element.embed_value {
            Some(Some(v)) => if v@.len() <= MAX_SYNOPSIS_CHARS {
                (true, Some(escape_outside_attribute(v@)), seq![])
            } else {
                (true, synopsis, errors_for(element, manifest_path, Some(synopsis_too_long_message(v@.len()))))
            },
            Some(None) => (true, None, seq![]),
            None => (true, synopsis, errors_for(element, manifest_path, Some(SYNOPSIS_SHAPE_ERROR@))),
        }
    } else {
        (false, synopsis, seq![])
    }
}

/// Reads an element as `synopsis`: an embed of at most 256 characters,
/// kept escaped for html; a longer one is an error that changes nothing,
/// an empty embed removes the synopsis, and an element of another shape is
/// an error. Returns whether the key is `synopsis`; where it is not,
/// nothing changes.
pub fn read_synopsis_option(
    element: &ManifestElement,
    manifest_path: &str,
    synopsis: &mut Option<String>,
    errors: &mut Vec<String>,
) -> (handled: bool)
    ensures
        ({
            let (h, s, e) = spec_read_synopsis_option(*element, manifest_path@, opt_view(*old(synopsis)));
            &&& handled == h
            &&& opt_view(*final(synopsis)) == s
            &&& views(final(errors)@) == views(old(errors)@) + e
        }),
{
    let ghost start = views(errors@);
    if !str_equal(element.key.as_str(), "synopsis") {
        assert(views(errors@) =~= start + Seq::<Seq<char>>::empty());
        return false;
    }
    match &element.embed_value {
        Some(Some(v)) => {
            let chars = v.as_str().unicode_len();
            if chars <= MAX_SYNOPSIS_CHARS {
                *synopsis = Some(html_escape_outside_attribute(v.as_str()));
                assert(views(errors@) =~= start + Seq::<Seq<char>>::empty());
            } else {
                let mut message = String::from_str("Synopsis is too long (");
                push_decimal(&mut message, chars as u64);
                message.append("/256 characters)");
                push_element_error(errors, element, manifest_path, message.as_str());
                assert(views(errors@) =~= start + errors_for(*element, manifest_path@, Some(synopsis_too_long_message(v@.len()))));
            }
        },
        Some(None) => {
            *synopsis = None;
            assert(views(errors@) =~= start + Seq::<Seq<char>>::empty());
        },
        None => {
            push_element_error(errors, element, manifest_path, SYNOPSIS_SHAPE_ERROR);
            assert(views(errors@) =~= start + errors_for(*element, manifest_path@, Some(SYNOPSIS_SHAPE_ERROR@)));
        },
    }
    true
}
} // verus!
