//! Reading the `theme` option of artist, catalog, release and track
//! manifests: a field whose attributes set the colors, font, background and
//! waveforms of the pages. Files that attributes name are looked up on disk
//! before, as for covers.

use vstd::prelude::*;

use crate::cover_generator::{spec_from_manifest_key as generator_from_key, CoverGenerator};
use crate::image_option::ReferencedFile;
use crate::obsolete_options::{obsolete_theme_attribute_message, spec_obsolete_theme_attribute_message};
use crate::release_manifest::{
    attribute_error_with_snippet, element_error_message, push_element_error, ManifestAttribute, ManifestElement,
};
use crate::text::{opt_view, parse_u32, parse_u32_str, str_equal, views};

verus! {

/// The base of a theme's colors.
#[derive(Clone, Copy, Debug, PartialEq, Eq, Structural)]
pub enum ThemeBase {
    Dark,
    Light,
}

/// The font of a theme.
#[derive(Clone, Debug)]
pub enum ThemeFont {
    SystemMono,
    SystemSans,
    /// A font installed on the reader's system, by name.
    System(String),
    /// A font file (the path as found on disk) that the site ships; it
    /// still has to be loaded.
    CustomFile(String),
}

pub enum ThemeFontView {
    SystemMono,
    SystemSans,
    System(Seq<char>),
    CustomFile(Seq<char>),
}

impl View for ThemeFont {
    type V = ThemeFontView;

    open spec fn view(&self) -> ThemeFontView {
        match self {
            ThemeFont::SystemMono => ThemeFontView::SystemMono,
            ThemeFont::SystemSans => ThemeFontView::SystemSans,
            ThemeFont::System(name) => ThemeFontView::System(name@),
            ThemeFont::CustomFile(path) => ThemeFontView::CustomFile(path@),
        }
    }
}

/// The settings of a theme that manifests can change.
pub struct ThemeSettings {
    pub accent_brightening: u8,
    pub accent_chroma: Option<u8>,
    pub accent_hue: Option<u16>,
    pub background_alpha: u8,
    /// The background image's path relative to the catalog.
    pub background_image: Option<String>,
    pub base: ThemeBase,
    pub base_chroma: u8,
    pub base_hue: u16,
    pub cover_generator: CoverGenerator,
    pub dynamic_range: u8,
    pub font: ThemeFont,
    pub relative_waveforms: bool,
    pub round_corners: bool,
    pub waveforms: bool,
}

#[verifier::ext_equal]
pub struct ThemeSettingsView {
    pub accent_brightening: u8,
    pub accent_chroma: Option<u8>,
    pub accent_hue: Option<u16>,
    pub background_alpha: u8,
    pub background_image: Option<Seq<char>>,
    pub base: ThemeBase,
    pub base_chroma: u8,
    pub base_hue: u16,
    pub cover_generator: CoverGenerator,
    pub dynamic_range: u8,
    pub font: ThemeFontView,
    pub relative_waveforms: bool,
    pub round_corners: bool,
    pub waveforms: bool,
}

impl View for ThemeSettings {
    type V = ThemeSettingsView;

    open spec fn view(&self) -> ThemeSettingsView {
        ThemeSettingsView {
            accent_brightening: self.accent_brightening,
            accent_chroma: self.accent_chroma,
            accent_hue: self.accent_hue,
            background_alpha: self.background_alpha,
            background_image: opt_view(self.background_image),
            base: self.base,
            base_chroma: self.base_chroma,
            base_hue: self.base_hue,
            cover_generator: self.cover_generator,
            dynamic_range: self.dynamic_range,
            font: self.font@,
            relative_waveforms: self.relative_waveforms,
            round_corners: self.round_corners,
            waveforms: self.waveforms,
        }
    }
}

/// A percentage as the theme options take it: a whole number from 0 to
/// 100, optionally with a leading "+".
pub open spec fn percentage(value: Seq<char>) -> Option<u8> {
    match parse_u32(value) {
        Some(n) => if n <= 100 {
            Some(n as u8)
        } else {
            None
        },
        None => None,
    }
}

/// An amount of degrees as the theme options take it: a whole number from
/// 0 to 360, optionally with a leading "+".
pub open spec fn degrees(value: Seq<char>) -> Option<u16> {
    match parse_u32(value) {
        Some(n) => if n <= 360 {
            Some(n as u16)
        } else {
            None
        },
        None => None,
    }
}

pub const THEME_SHAPE_ERROR: &'static str = "theme needs to be provided as a field with attributes, e.g.:\n\ntheme:\nbase = light\nwaveforms = absolute";

pub const UNSUPPORTED_VALUE_BEFORE: &'static str = "Unsupported value '";

pub const UNSUPPORTED_VALUE_FOR: &'static str = "' for '";

pub const PERCENTAGE_AFTER: &'static str = "' (accepts a percentage in the range 0-100 - without the % sign)";

pub const DEGREES_AFTER: &'static str = "' (accepts an amount of degrees in the range 0-360)";

pub const BACKGROUND_IMAGE_BEFORE: &'static str = "Invalid background_image setting value '";

pub const CUSTOM_FONT_BEFORE: &'static str = "Invalid custom_font setting value '";

pub const FILE_NOT_FOUND_AFTER: &'static str = "' (The referenced file was not found)";

pub const BASE_BEFORE: &'static str = "Invalid base setting value '";

pub const BASE_AFTER: &'static str = "' (supported values are 'dark' and 'light')";

pub const COVER_GENERATOR_BEFORE: &'static str = "Invalid cover_generator setting value '";

pub const COVER_GENERATOR_AFTER: &'static str = "' (supported values are 'best_rillen', 'blocks', 'glass_splinters', 'looney_tunes', 'scratchy_faint_rillen', 'space_time_rupture')";

pub const CUSTOM_FONT_WARNING: &'static str = "The 'custom_font' option has been superseded by more flexible and generic functionality provided through the 'site_assets' and 'site_metadata' options. For the time being 'custom_font' will still work, but it won't forever - make sure to update at some point.";

pub const SYSTEM_FONT_WARNING: &'static str = "The functionality for using 'system_font' to specify arbitrary system fonts has been superseded by more flexible and generic functionality provided through the 'site_assets' and 'site_metadata' options. For the time being 'system_font' will still work the way you're using it, but it won't forever - make sure to update at some point.";

pub const ROUND_CORNERS_BEFORE: &'static str = "Ignoring unsupported round_corners setting value '";

pub const ROUND_CORNERS_AFTER: &'static str = "' (supported values are 'disabled' and 'enabled')";

pub const WAVEFORMS_BEFORE: &'static str = "Ignoring unsupported waveforms setting value '";

pub const WAVEFORMS_AFTER: &'static str = "' (supported values are 'absolute', 'relative' and 'disabled')";

pub const THEME_ATTRIBUTE_BEFORE: &'static str = "The attribute '";

pub const THEME_ATTRIBUTE_AFTER: &'static str = "' is not recognized here (supported attributes are 'accent_brightening', 'accent_chroma', 'accent_hue', 'background_alpha', 'background_image', 'base', 'base_chroma', 'base_hue', 'cover_generator', 'dynamic_range', 'round_corners', 'system_font' and 'waveforms')";

/// The keys whose values are percentages.
pub open spec fn is_percentage_key(key: Seq<char>) -> bool {
    key == "accent_brightening"@ || key == "accent_chroma"@ || key == "background_alpha"@ || key == "base_chroma"@
        || key == "dynamic_range"@
}

/// The keys whose values are degrees.
pub open spec fn is_degrees_key(key: Seq<char>) -> bool {
    key == "accent_hue"@ || key == "base_hue"@
}

/// A setting with a percentage value.
pub open spec fn with_percentage(t: ThemeSettingsView, key: Seq<char>, p: u8) -> ThemeSettingsView {
    if key == "accent_brightening"@ {
        ThemeSettingsView { accent_brightening: p, ..t }
    } else if key == "accent_chroma"@ {
        ThemeSettingsView { accent_chroma: Some(p), ..t }
    } else if key == "background_alpha"@ {
        ThemeSettingsView { background_alpha: p, ..t }
    } else if key == "base_chroma"@ {
        ThemeSettingsView { base_chroma: p, ..t }
    } else {
        ThemeSettingsView { dynamic_range: p, ..t }
    }
}

/// A setting with a degrees value.
pub open spec fn with_degrees(t: ThemeSettingsView, key: Seq<char>, d: u16) -> ThemeSettingsView {
    if key == "accent_hue"@ {
        ThemeSettingsView { accent_hue: Some(d), ..t }
    } else {
        ThemeSettingsView { base_hue: d, ..t }
    }
}

/// The settings, errors and warnings that the attributes read so far give.
pub type ThemeState = (ThemeSettingsView, Seq<Seq<char>>, Seq<Seq<char>>);

/// What one theme attribute does. Obsolete attributes are errors that
/// explain what replaced them; a value out of range, unknown or naming a
/// missing file is an error that changes nothing; an unknown attribute is
/// an error; the deprecated `custom_font`, and `system_font` with another
/// value than "sans" or "mono", also give a warning about the element.
/// Other attributes without a value change nothing.
pub open spec fn theme_attribute_step(
    state: ThemeState,
    attribute: ManifestAttribute,
    file: Option<ReferencedFile>,
    element: ManifestElement,
    manifest_path: Seq<char>,
) -> ThemeState {
    let (t, errors, warnings) = state;
    let key = attribute.key@;
    let attribute_error = |m: Seq<char>|
        element_error_message(manifest_path, attribute.line_number as nat, attribute.snippet@, m);
    let element_warning = |m: Seq<char>|
        element_error_message(manifest_path, element.line_number as nat, element.snippet@, m);
    match spec_obsolete_theme_attribute_message(key, attribute.value is Some) {
        Some(m) => (t, errors.push(attribute_error(m)), warnings),
        None => if is_percentage_key(key) || is_degrees_key(key) || key == "background_image"@ || key == "base"@
            || key == "cover_generator"@ || key == "round_corners"@ || key == "system_font"@ || key == "waveforms"@ {
            match attribute.value {
                None => state,
                Some(value) => {
                    let v = value@;
                    if is_percentage_key(key) {
                        match percentage(v) {
                            Some(p) => (with_percentage(t, key, p), errors, warnings),
                            None => (t, errors.push(attribute_error(
                                UNSUPPORTED_VALUE_BEFORE@ + v + UNSUPPORTED_VALUE_FOR@ + key + PERCENTAGE_AFTER@,
                            )), warnings),
                        }
                    } else if is_degrees_key(key) {
                        match degrees(v) {
                            Some(d) => (with_degrees(t, key, d), errors, warnings),
                            None => (t, errors.push(attribute_error(
                                UNSUPPORTED_VALUE_BEFORE@ + v + UNSUPPORTED_VALUE_FOR@ + key + DEGREES_AFTER@,
                            )), warnings),
                        }
                    } else if key == "background_image"@ {
                        match file {
                            Some(f) => if f.exists {
                                (ThemeSettingsView { background_image: Some(f.relative_path@), ..t }, errors, warnings)
                            } else {
                                (t, errors.push(attribute_error(BACKGROUND_IMAGE_BEFORE@ + v + FILE_NOT_FOUND_AFTER@)), warnings)
                            },
                            None => state,
                        }
                    } else if key == "base"@ {
                        if v == "dark"@ {
                            (ThemeSettingsView { base: ThemeBase::Dark, ..t }, errors, warnings)
                        } else if v == "light"@ {
                            (ThemeSettingsView { base: ThemeBase::Light, ..t }, errors, warnings)
                        } else {
                            (t, errors.push(attribute_error(BASE_BEFORE@ + v + BASE_AFTER@)), warnings)
                        }
                    } else if key == "cover_generator"@ {
                        match generator_from_key(v) {
                            Some(g) => (ThemeSettingsView { cover_generator: g, ..t }, errors, warnings),
                            None => (t, errors.push(attribute_error(COVER_GENERATOR_BEFORE@ + v + COVER_GENERATOR_AFTER@)), warnings),
                        }
                    } else if key == "round_corners"@ {
                        if v == "disabled"@ {
                            (ThemeSettingsView { round_corners: false, ..t }, errors, warnings)
                        } else if v == "enabled"@ {
                            (ThemeSettingsView { round_corners: true, ..t }, errors, warnings)
                        } else {
                            (t, errors.push(attribute_error(ROUND_CORNERS_BEFORE@ + v + ROUND_CORNERS_AFTER@)), warnings)
                        }
                    } else if key == "system_font"@ {
                        if v == "sans"@ {
                            (ThemeSettingsView { font: ThemeFontView::SystemSans, ..t }, errors, warnings)
                        } else if v == "mono"@ {
                            (ThemeSettingsView { font: ThemeFontView::SystemMono, ..t }, errors, warnings)
                        } else {
                            (
                                ThemeSettingsView { font: ThemeFontView::System(v), ..t },
                                errors,
                                warnings.push(element_warning(SYSTEM_FONT_WARNING@)),
                            )
                        }
                    } else {
                        if v == "absolute"@ {
                            (ThemeSettingsView { waveforms: true, relative_waveforms: false, ..t }, errors, warnings)
                        } else if v == "disabled"@ {
                            (ThemeSettingsView { waveforms: false, ..t }, errors, warnings)
                        } else if v == "relative"@ {
                            (ThemeSettingsView { waveforms: true, relative_waveforms: true, ..t }, errors, warnings)
                        } else {
                            (t, errors.push(attribute_error(WAVEFORMS_BEFORE@ + v + WAVEFORMS_AFTER@)), warnings)
                        }
                    }
                },
            }
        } else if key == "custom_font"@ {
            let warned = warnings.push(element_warning(CUSTOM_FONT_WARNING@));
            match (attribute.value, file) {
                (Some(value), Some(f)) => if f.exists {
                    (ThemeSettingsView { font: ThemeFontView::CustomFile(f.shown_path@), ..t }, errors, warned)
                } else {
                    (t, errors.push(attribute_error(CUSTOM_FONT_BEFORE@ + value@ + FILE_NOT_FOUND_AFTER@)), warned)
                },
                _ => (t, errors, warned),
            }
        } else {
            (t, errors.push(attribute_error(THEME_ATTRIBUTE_BEFORE@ + key + THEME_ATTRIBUTE_AFTER@)), warnings)
        },
    }
}

/// What the first `n` attributes give, read in order.
pub open spec fn theme_attributes(
    start: ThemeSettingsView,
    attributes: Seq<ManifestAttribute>,
    files: Seq<Option<ReferencedFile>>,
    n: int,
    element: ManifestElement,
    manifest_path: Seq<char>,
) -> ThemeState
    decreases n,
{
    if n <= 0 {
        (start, seq![], seq![])
    } else {
        theme_attribute_step(
            theme_attributes(start, attributes, files, n - 1, element, manifest_path),
            attributes[n - 1],
            files[n - 1],
            element,
            manifest_path,
        )
    }
}

/// What reading an element as `theme` does: whether the key is `theme`,
/// the settings afterwards, the errors and the warnings.
pub open spec fn spec_read_theme_option(
    element: ManifestElement,
    files: Seq<Option<ReferencedFile>>,
    manifest_path: Seq<char>,
    theme: ThemeSettingsView,
) -> (bool, ThemeSettingsView, Seq<Seq<char>>, Seq<Seq<char>>) {
    if element.key@ != "theme"@ {
        (false, theme, seq![], seq![])
    } else {
        match element.field_attributes {
            Some(attributes) => {
                let (t, e, w) = theme_attributes(theme, attributes@, files, attributes@.len() as int, element, manifest_path);
                (true, t, e, w)
            },
            None => (
                true,
                theme,
                seq![element_error_message(manifest_path, element.line_number as nat, element.snippet@, THEME_SHAPE_ERROR@)],
                seq![],
            ),
        }
    }
}

fn message3(a: &str, b: &str, c: &str) -> (m: String)
    ensures
        m@ == a@ + b@ + c@,
{
    let mut m = String::from_str(a);
    m.append(b);
    m.append(c);
    m
}

fn message5(a: &str, b: &str, c: &str, d: &str, e: &str) -> (m: String)
    ensures
        m@ == a@ + b@ + c@ + d@ + e@,
{
    let mut m = String::from_str(a);
    m.append(b);
    m.append(c);
    m.append(d);
    m.append(e);
    m
}

fn push_message(errors: &mut Vec<String>, message: String)
    ensures
        views(final(errors)@) == views(old(errors)@).push(message@),
{
    let ghost before = errors@;
    errors.push(message);
    assert(views(errors@) =~= views(before).push(message@));
}

fn percentage_of(value: &str) -> (p: Option<u8>)
    ensures
        p == percentage(value@),
{
    match parse_u32_str(value) {
        Some(n) => if n <= 100 {
            Some(n as u8)
        } else {
            None
        },
        None => None,
    }
}

fn degrees_of(value: &str) -> (d: Option<u16>)
    ensures
        d == degrees(value@),
{
    match parse_u32_str(value) {
        Some(n) => if n <= 360 {
            Some(n as u16)
        } else {
            None
        },
        None => None,
    }
}

/// Applies one attribute to the settings.
fn read_theme_attribute(
    attribute: &ManifestAttribute,
    file: &Option<ReferencedFile>,
    element: &ManifestElement,
    manifest_path: &str,
    theme: &mut ThemeSettings,
    errors: &mut Vec<String>,
    warnings: &mut Vec<String>,
)
    ensures
        ({
            let (t, e, w) = theme_attribute_step(
                (old(theme)@, views(old(errors)@), views(old(warnings)@)),
                *attribute,
                *file,
                *element,
                manifest_path@,
            );
            &&& final(theme)@ == t
            &&& views(final(errors)@) == e
            &&& views(final(warnings)@) == w
        }),
{
    proof {
        reveal_strlit("accent_brightening");
        reveal_strlit("accent_chroma");
        reveal_strlit("background_alpha");
        reveal_strlit("base_chroma");
        reveal_strlit("dynamic_range");
        reveal_strlit("accent_hue");
        reveal_strlit("base_hue");
        reveal_strlit("background_image");
        reveal_strlit("base");
        reveal_strlit("cover_generator");
        reveal_strlit("round_corners");
        reveal_strlit("system_font");
        reveal_strlit("waveforms");
        reveal_strlit("custom_font");
    }
    let key = attribute.key.as_str();
    if let Some(m) = obsolete_theme_attribute_message(key, attribute.value.is_some()) {
        push_message(errors, attribute_error_with_snippet(attribute, manifest_path, m));
        return;
    }
    if str_equal(key, "custom_font") {
        assert(key@[0] == 'c' && "base_chroma"@[0] == 'b' && "system_font"@[0] == 's');
        assert(!is_percentage_key(key@) && !is_degrees_key(key@));
        assert(key@ != "background_image"@ && key@ != "base"@ && key@ != "cover_generator"@);
        assert(key@ != "round_corners"@ && key@ != "system_font"@ && key@ != "waveforms"@);
        let ghost warned = views(warnings@).push(element_error_message(manifest_path@, element.line_number as nat, element.snippet@, CUSTOM_FONT_WARNING@));
        push_element_error(warnings, element, manifest_path, CUSTOM_FONT_WARNING);
        assert(views(warnings@) == warned);
        match &attribute.value {
            Some(value) => match file {
                Some(f) => {
                    if f.exists {
                        theme.font = ThemeFont::CustomFile(f.shown_path.clone());
                        assert(theme@ =~= ThemeSettingsView { font: ThemeFontView::CustomFile(f.shown_path@), ..old(theme)@ });
                    } else {
                        let m = message3(CUSTOM_FONT_BEFORE, value.as_str(), FILE_NOT_FOUND_AFTER);
                        push_message(errors, attribute_error_with_snippet(attribute, manifest_path, m.as_str()));
                    }
                },
                None => {
                    assert(theme@ =~= old(theme)@);
                },
            },
            None => {
                assert(theme@ =~= old(theme)@);
            },
        }
        return;
    }
    let percentage_key = str_equal(key, "accent_brightening") || str_equal(key, "accent_chroma")
        || str_equal(key, "background_alpha") || str_equal(key, "base_chroma") || str_equal(key, "dynamic_range");
    let degrees_key = str_equal(key, "accent_hue") || str_equal(key, "base_hue");
    let known = percentage_key || degrees_key || str_equal(key, "background_image") || str_equal(key, "base")
        || str_equal(key, "cover_generator") || str_equal(key, "round_corners") || str_equal(key, "system_font")
        || str_equal(key, "waveforms");
    if !known {
        let m = message3(THEME_ATTRIBUTE_BEFORE, key, THEME_ATTRIBUTE_AFTER);
        push_message(errors, attribute_error_with_snippet(attribute, manifest_path, m.as_str()));
        return;
    }
    let value = match &attribute.value {
        Some(v) => v.as_str(),
        None => {
            return;
        },
    };
    if percentage_key {
        match percentage_of(value) {
            Some(p) => {
                if str_equal(key, "accent_brightening") {
                    theme.accent_brightening = p;
                } else if str_equal(key, "accent_chroma") {
                    theme.accent_chroma = Some(p);
                } else if str_equal(key, "background_alpha") {
                    theme.background_alpha = p;
                } else if str_equal(key, "base_chroma") {
                    theme.base_chroma = p;
                } else {
                    theme.dynamic_range = p;
                }
                assert(theme@ =~= with_percentage(old(theme)@, key@, p));
            },
            None => {
                let m = message5(UNSUPPORTED_VALUE_BEFORE, value, UNSUPPORTED_VALUE_FOR, key, PERCENTAGE_AFTER);
                push_message(errors, attribute_error_with_snippet(attribute, manifest_path, m.as_str()));
            },
        }
    } else if degrees_key {
        match degrees_of(value) {
            Some(d) => {
                if str_equal(key, "accent_hue") {
                    theme.accent_hue = Some(d);
                } else {
                    theme.base_hue = d;
                }
                assert(theme@ =~= with_degrees(old(theme)@, key@, d));
            },
            None => {
                let m = message5(UNSUPPORTED_VALUE_BEFORE, value, UNSUPPORTED_VALUE_FOR, key, DEGREES_AFTER);
                push_message(errors, attribute_error_with_snippet(attribute, manifest_path, m.as_str()));
            },
        }
    } else if str_equal(key, "background_image") {
        if let Some(f) = file {
            if f.exists {
                theme.background_image = Some(f.relative_path.clone());
                assert(theme@ =~= ThemeSettingsView { background_image: Some(f.relative_path@), ..old(theme)@ });
            } else {
                let m = message3(BACKGROUND_IMAGE_BEFORE, value, FILE_NOT_FOUND_AFTER);
                push_message(errors, attribute_error_with_snippet(attribute, manifest_path, m.as_str()));
            }
        }
    } else if str_equal(key, "base") {
        if str_equal(value, "dark") {
            theme.base = ThemeBase::Dark;
        } else if str_equal(value, "light") {
            theme.base = ThemeBase::Light;
        } else {
            let m = message3(BASE_BEFORE, value, BASE_AFTER);
            push_message(errors, attribute_error_with_snippet(attribute, manifest_path, m.as_str()));
        }
    } else if str_equal(key, "cover_generator") {
        match CoverGenerator::from_manifest_key(value) {
            Some(g) => {
                theme.cover_generator = g;
            },
            None => {
                let m = message3(COVER_GENERATOR_BEFORE, value, COVER_GENERATOR_AFTER);
                push_message(errors, attribute_error_with_snippet(attribute, manifest_path, m.as_str()));
            },
        }
    } else if str_equal(key, "round_corners") {
        if str_equal(value, "disabled") {
            theme.round_corners = false;
        } else if str_equal(value, "enabled") {
            theme.round_corners = true;
        } else {
            let m = message3(ROUND_CORNERS_BEFORE, value, ROUND_CORNERS_AFTER);
            push_message(errors, attribute_error_with_snippet(attribute, manifest_path, m.as_str()));
        }
    } else if str_equal(key, "system_font") {
        if str_equal(value, "sans") {
            theme.font = ThemeFont::SystemSans;
        } else if str_equal(value, "mono") {
            theme.font = ThemeFont::SystemMono;
        } else {
            push_element_error(warnings, element, manifest_path, SYSTEM_FONT_WARNING);
            theme.font = ThemeFont::System(String::from_str(value));
        }
    } else {
        if str_equal(value, "absolute") {
            theme.waveforms = true;
            theme.relative_waveforms = false;
        } else if str_equal(value, "disabled") {
            theme.waveforms = false;
        } else if str_equal(value, "relative") {
            theme.waveforms = true;
            theme.relative_waveforms = true;
        } else {
            let m = message3(WAVEFORMS_BEFORE, value, WAVEFORMS_AFTER);
            push_message(errors, attribute_error_with_snippet(attribute, manifest_path, m.as_str()));
        }
    }
}

/// Reads an element as `theme`: a field with attributes, each applied in
/// order to `theme` (see `theme_attribute_step`), where `files` holds, for
/// each attribute, what was found at the path that a `background_image` or
/// `custom_font` attribute names (`None` for other attributes). An element
/// of another shape adds an error. Returns whether the key is `theme`;
/// where it is not, nothing changes.
pub fn read_theme_option(
    element: &ManifestElement,
    files: &Vec<Option<ReferencedFile>>,
    manifest_path: &str,
    theme: &mut ThemeSettings,
    errors: &mut Vec<String>,
    warnings: &mut Vec<String>,
) -> (handled: bool)
    requires
        match element.field_attributes {
            Some(attributes) => files.len() == attributes.len(),
            None => true,
        },
    ensures
        ({
            let (h, t, e, w) = spec_read_theme_option(*element, files@, manifest_path@, old(theme)@);
            &&& handled == h
            &&& final(theme)@ == t
            &&& views(final(errors)@) == views(old(errors)@) + e
            &&& views(final(warnings)@) == views(old(warnings)@) + w
        }),
{
    let ghost errors_start = views(errors@);
    let ghost warnings_start = views(warnings@);
    let ghost theme_start = theme@;
    if !str_equal(element.key.as_str(), "theme") {
        assert(views(errors@) =~= errors_start + Seq::<Seq<char>>::empty());
        assert(views(warnings@) =~= warnings_start + Seq::<Seq<char>>::empty());
        return false;
    }
    match &element.field_attributes {
        Some(attributes) => {
            let mut i: usize = 0;
            assert(views(errors@) =~= errors_start + Seq::<Seq<char>>::empty());
            assert(views(warnings@) =~= warnings_start + Seq::<Seq<char>>::empty());
            while i < attributes.len()
                invariant
                    i <= attributes.len(),
                    files.len() == attributes.len(),
                    ({
                        let (t, e, w) = theme_attributes(theme_start, attributes@, files@, i as int, *element, manifest_path@);
                        &&& theme@ == t
                        &&& views(errors@) == errors_start + e
                        &&& views(warnings@) == warnings_start + w
                    }),
                decreases attributes.len() - i,
            {
                let ghost before = theme_attributes(theme_start, attributes@, files@, i as int, *element, manifest_path@);
                let ghost prior_errors = views(errors@);
                let ghost prior_warnings = views(warnings@);
                read_theme_attribute(&attributes[i], &files[i], element, manifest_path, theme, errors, warnings);
                proof {
                    let stepped = theme_attribute_step(
                        (before.0, prior_errors, prior_warnings),
                        attributes@[i as int],
                        files@[i as int],
                        *element,
                        manifest_path@,
                    );
                    let after = theme_attributes(theme_start, attributes@, files@, i + 1, *element, manifest_path@);
                    lemma_step_shifts(before, attributes@[i as int], files@[i as int], *element, manifest_path@, errors_start, warnings_start);
                    assert(views(errors@) =~= errors_start + after.1);
                    assert(views(warnings@) =~= warnings_start + after.2);
                }
                i = i + 1;
            }
            true
        },
        None => {
            push_element_error(errors, element, manifest_path, THEME_SHAPE_ERROR);
            assert(views(warnings@) =~= warnings_start + Seq::<Seq<char>>::empty());
            true
        },
    }
}

/// A step on errors and warnings that already hold earlier messages adds
/// the same messages as on the step's own.
proof fn lemma_step_shifts(
    state: ThemeState,
    attribute: ManifestAttribute,
    file: Option<ReferencedFile>,
    element: ManifestElement,
    manifest_path: Seq<char>,
    errors_start: Seq<Seq<char>>,
    warnings_start: Seq<Seq<char>>,
)
    ensures
        ({
            let shifted = theme_attribute_step(
                (state.0, errors_start + state.1, warnings_start + state.2),
                attribute,
                file,
                element,
                manifest_path,
            );
            let own = theme_attribute_step(state, attribute, file, element, manifest_path);
            &&& shifted.0 == own.0
            &&& shifted.1 == errors_start + own.1
            &&& shifted.2 == warnings_start + own.2
        }),
{
    let own = theme_attribute_step(state, attribute, file, element, manifest_path);
    let shifted = theme_attribute_step(
        (state.0, errors_start + state.1, warnings_start + state.2),
        attribute,
        file,
        element,
        manifest_path,
    );
    assert(shifted.1 =~= errors_start + own.1);
    assert(shifted.2 =~= warnings_start + own.2);
}


proof fn lemma_theme_literals()
    ensures
        "waveforms"@ =~= seq!['w', 'a', 'v', 'e', 'f', 'o', 'r', 'm', 's'],
        "link_brightness"@ =~= seq!['l', 'i', 'n', 'k', '_', 'b', 'r', 'i', 'g', 'h', 't', 'n', 'e', 's', 's'],
        "link_hue"@ =~= seq!['l', 'i', 'n', 'k', '_', 'h', 'u', 'e'],
        "link_saturation"@ =~= seq!['l', 'i', 'n', 'k', '_', 's', 'a', 't', 'u', 'r', 'a', 't', 'i', 'o', 'n'],
        "round_corners"@ =~= seq!['r', 'o', 'u', 'n', 'd', '_', 'c', 'o', 'r', 'n', 'e', 'r', 's'],
        "text_hue"@ =~= seq!['t', 'e', 'x', 't', '_', 'h', 'u', 'e'],
        "tint_back"@ =~= seq!['t', 'i', 'n', 't', '_', 'b', 'a', 'c', 'k'],
        "tint_front"@ =~= seq!['t', 'i', 'n', 't', '_', 'f', 'r', 'o', 'n', 't'],
        "accent_brightening"@ =~= seq!['a', 'c', 'c', 'e', 'n', 't', '_', 'b', 'r', 'i', 'g', 'h', 't', 'e', 'n', 'i', 'n', 'g'],
        "accent_chroma"@ =~= seq!['a', 'c', 'c', 'e', 'n', 't', '_', 'c', 'h', 'r', 'o', 'm', 'a'],
        "background_alpha"@ =~= seq!['b', 'a', 'c', 'k', 'g', 'r', 'o', 'u', 'n', 'd', '_', 'a', 'l', 'p', 'h', 'a'],
        "base_chroma"@ =~= seq!['b', 'a', 's', 'e', '_', 'c', 'h', 'r', 'o', 'm', 'a'],
        "dynamic_range"@ =~= seq!['d', 'y', 'n', 'a', 'm', 'i', 'c', '_', 'r', 'a', 'n', 'g', 'e'],
        "accent_hue"@ =~= seq!['a', 'c', 'c', 'e', 'n', 't', '_', 'h', 'u', 'e'],
        "base_hue"@ =~= seq!['b', 'a', 's', 'e', '_', 'h', 'u', 'e'],
        "background_image"@ =~= seq!['b', 'a', 'c', 'k', 'g', 'r', 'o', 'u', 'n', 'd', '_', 'i', 'm', 'a', 'g', 'e'],
        "base"@ =~= seq!['b', 'a', 's', 'e'],
        "cover_generator"@ =~= seq!['c', 'o', 'v', 'e', 'r', '_', 'g', 'e', 'n', 'e', 'r', 'a', 't', 'o', 'r'],
        "system_font"@ =~= seq!['s', 'y', 's', 't', 'e', 'm', '_', 'f', 'o', 'n', 't'],
        "custom_font"@ =~= seq!['c', 'u', 's', 't', 'o', 'm', '_', 'f', 'o', 'n', 't'],
        "disabled"@ =~= seq!['d', 'i', 's', 'a', 'b', 'l', 'e', 'd'],
        "absolute"@ =~= seq!['a', 'b', 's', 'o', 'l', 'u', 't', 'e'],
        "relative"@ =~= seq!['r', 'e', 'l', 'a', 't', 'i', 'v', 'e'],
{
    reveal_strlit("waveforms");
    assert("waveforms"@ =~= seq!['w', 'a', 'v', 'e', 'f', 'o', 'r', 'm', 's']);
    reveal_strlit("link_brightness");
    assert("link_brightness"@ =~= seq!['l', 'i', 'n', 'k', '_', 'b', 'r', 'i', 'g', 'h', 't', 'n', 'e', 's', 's']);
    reveal_strlit("link_hue");
    assert("link_hue"@ =~= seq!['l', 'i', 'n', 'k', '_', 'h', 'u', 'e']);
    reveal_strlit("link_saturation");
    assert("link_saturation"@ =~= seq!['l', 'i', 'n', 'k', '_', 's', 'a', 't', 'u', 'r', 'a', 't', 'i', 'o', 'n']);
    reveal_strlit("round_corners");
    assert("round_corners"@ =~= seq!['r', 'o', 'u', 'n', 'd', '_', 'c', 'o', 'r', 'n', 'e', 'r', 's']);
    reveal_strlit("text_hue");
    assert("text_hue"@ =~= seq!['t', 'e', 'x', 't', '_', 'h', 'u', 'e']);
    reveal_strlit("tint_back");
    assert("tint_back"@ =~= seq!['t', 'i', 'n', 't', '_', 'b', 'a', 'c', 'k']);
    reveal_strlit("tint_front");
    assert("tint_front"@ =~= seq!['t', 'i', 'n', 't', '_', 'f', 'r', 'o', 'n', 't']);
    reveal_strlit("accent_brightening");
    assert("accent_brightening"@ =~= seq!['a', 'c', 'c', 'e', 'n', 't', '_', 'b', 'r', 'i', 'g', 'h', 't', 'e', 'n', 'i', 'n', 'g']);
    reveal_strlit("accent_chroma");
    assert("accent_chroma"@ =~= seq!['a', 'c', 'c', 'e', 'n', 't', '_', 'c', 'h', 'r', 'o', 'm', 'a']);
    reveal_strlit("background_alpha");
    assert("background_alpha"@ =~= seq!['b', 'a', 'c', 'k', 'g', 'r', 'o', 'u', 'n', 'd', '_', 'a', 'l', 'p', 'h', 'a']);
    reveal_strlit("base_chroma");
    assert("base_chroma"@ =~= seq!['b', 'a', 's', 'e', '_', 'c', 'h', 'r', 'o', 'm', 'a']);
    reveal_strlit("dynamic_range");
    assert("dynamic_range"@ =~= seq!['d', 'y', 'n', 'a', 'm', 'i', 'c', '_', 'r', 'a', 'n', 'g', 'e']);
    reveal_strlit("accent_hue");
    assert("accent_hue"@ =~= seq!['a', 'c', 'c', 'e', 'n', 't', '_', 'h', 'u', 'e']);
    reveal_strlit("base_hue");
    assert("base_hue"@ =~= seq!['b', 'a', 's', 'e', '_', 'h', 'u', 'e']);
    reveal_strlit("background_image");
    assert("background_image"@ =~= seq!['b', 'a', 'c', 'k', 'g', 'r', 'o', 'u', 'n', 'd', '_', 'i', 'm', 'a', 'g', 'e']);
    reveal_strlit("base");
    assert("base"@ =~= seq!['b', 'a', 's', 'e']);
    reveal_strlit("cover_generator");
    assert("cover_generator"@ =~= seq!['c', 'o', 'v', 'e', 'r', '_', 'g', 'e', 'n', 'e', 'r', 'a', 't', 'o', 'r']);
    reveal_strlit("system_font");
    assert("system_font"@ =~= seq!['s', 'y', 's', 't', 'e', 'm', '_', 'f', 'o', 'n', 't']);
    reveal_strlit("custom_font");
    assert("custom_font"@ =~= seq!['c', 'u', 's', 't', 'o', 'm', '_', 'f', 'o', 'n', 't']);
    reveal_strlit("disabled");
    assert("disabled"@ =~= seq!['d', 'i', 's', 'a', 'b', 'l', 'e', 'd']);
    reveal_strlit("absolute");
    assert("absolute"@ =~= seq!['a', 'b', 's', 'o', 'l', 'u', 't', 'e']);
    reveal_strlit("relative");
    assert("relative"@ =~= seq!['r', 'e', 'l', 'a', 't', 'i', 'v', 'e']);
}

/// A `waveforms` attribute switches the waveforms off with "disabled", on
/// (drawn to an absolute scale) with "absolute", and on (drawn relative to
/// the longest track) with "relative", whatever the settings were before,
/// and gives no error or warning.
pub proof fn lemma_waveforms_attribute(
    state: ThemeState,
    attribute: ManifestAttribute,
    file: Option<ReferencedFile>,
    element: ManifestElement,
    manifest_path: Seq<char>,
)
    requires
        attribute.key@ == "waveforms"@,
        attribute.value is Some,
    ensures
        ({
            let (t, errors, warnings) = theme_attribute_step(state, attribute, file, element, manifest_path);
            let v = attribute.value->0@;
            &&& v == "disabled"@ ==> !t.waveforms && errors == state.1 && warnings == state.2
            &&& v == "absolute"@ ==> t.waveforms && !t.relative_waveforms && errors == state.1 && warnings == state.2
            &&& v == "relative"@ ==> t.waveforms && t.relative_waveforms && errors == state.1 && warnings == state.2
        }),
{
    lemma_theme_literals();
}

/// A theme whose last attribute is "waveforms = disabled" has the
/// waveforms switched off, whatever the settings were before.
pub proof fn lemma_theme_ending_with_disabled_waveforms(
    element: ManifestElement,
    files: Seq<Option<ReferencedFile>>,
    manifest_path: Seq<char>,
    theme: ThemeSettingsView,
)
    requires
        element.key@ == "theme"@,
        element.field_attributes is Some,
        element.field_attributes->0@.len() > 0,
        element.field_attributes->0@.last().key@ == "waveforms"@,
        element.field_attributes->0@.last().value is Some,
        element.field_attributes->0@.last().value->0@ == "disabled"@,
    ensures
        spec_read_theme_option(element, files, manifest_path, theme).0,
        !spec_read_theme_option(element, files, manifest_path, theme).1.waveforms,
{
    let attributes = element.field_attributes->0@;
    let n = attributes.len() as int;
    let before = theme_attributes(theme, attributes, files, n - 1, element, manifest_path);
    lemma_waveforms_attribute(before, attributes[n - 1], files[n - 1], element, manifest_path);
}

/// A percentage attribute (accent_brightening, accent_chroma,
/// background_alpha, base_chroma, dynamic_range) with a whole number from
/// 0 to 100 sets that setting and gives no error; with any other value it
/// leaves the settings as they were and gives one error.
pub proof fn lemma_percentage_attributes(
    state: ThemeState,
    attribute: ManifestAttribute,
    file: Option<ReferencedFile>,
    element: ManifestElement,
    manifest_path: Seq<char>,
)
    requires
        attribute.value is Some,
    ensures
        ({
            let key = attribute.key@;
            let v = attribute.value->0@;
            let (t, errors, warnings) = theme_attribute_step(state, attribute, file, element, manifest_path);
            let in_range = parse_u32(v) is Some && parse_u32(v)->0 <= 100;
            &&& in_range && key == "accent_brightening"@ ==> t.accent_brightening == parse_u32(v)->0 && errors == state.1
            &&& in_range && key == "accent_chroma"@ ==> t.accent_chroma == Some(parse_u32(v)->0 as u8) && errors == state.1
            &&& in_range && key == "background_alpha"@ ==> t.background_alpha == parse_u32(v)->0 && errors == state.1
            &&& in_range && key == "base_chroma"@ ==> t.base_chroma == parse_u32(v)->0 && errors == state.1
            &&& in_range && key == "dynamic_range"@ ==> t.dynamic_range == parse_u32(v)->0 && errors == state.1
            &&& !in_range && (key == "accent_brightening"@ || key == "accent_chroma"@ || key == "background_alpha"@
                || key == "base_chroma"@ || key == "dynamic_range"@) ==> t == state.0 && errors.len() == state.1.len() + 1
                && warnings == state.2
        }),
{
    lemma_theme_literals();
}

/// A degrees attribute (accent_hue, base_hue) with a whole number from 0 to
/// 360 sets that setting and gives no error; with any other value it
/// leaves the settings as they were and gives one error.
pub proof fn lemma_degrees_attributes(
    state: ThemeState,
    attribute: ManifestAttribute,
    file: Option<ReferencedFile>,
    element: ManifestElement,
    manifest_path: Seq<char>,
)
    requires
        attribute.value is Some,
    ensures
        ({
            let key = attribute.key@;
            let v = attribute.value->0@;
            let (t, errors, warnings) = theme_attribute_step(state, attribute, file, element, manifest_path);
            let in_range = parse_u32(v) is Some && parse_u32(v)->0 <= 360;
            &&& in_range && key == "accent_hue"@ ==> t.accent_hue == Some(parse_u32(v)->0 as u16) && errors == state.1
            &&& in_range && key == "base_hue"@ ==> t.base_hue == parse_u32(v)->0 && errors == state.1
            &&& !in_range && (key == "accent_hue"@ || key == "base_hue"@) ==> t == state.0 && errors.len()
                == state.1.len() + 1 && warnings == state.2
        }),
{
    lemma_theme_literals();
}

/// `base` takes "dark" and "light", `round_corners` takes "enabled" and
/// "disabled"; each sets its setting and gives no error.
pub proof fn lemma_base_and_corners(
    state: ThemeState,
    attribute: ManifestAttribute,
    file: Option<ReferencedFile>,
    element: ManifestElement,
    manifest_path: Seq<char>,
)
    requires
        attribute.value is Some,
    ensures
        ({
            let key = attribute.key@;
            let v = attribute.value->0@;
            let (t, errors, warnings) = theme_attribute_step(state, attribute, file, element, manifest_path);
            &&& key == "base"@ && v == "dark"@ ==> t.base == ThemeBase::Dark && errors == state.1
            &&& key == "base"@ && v == "light"@ ==> t.base == ThemeBase::Light && errors == state.1
            &&& key == "round_corners"@ && v == "enabled"@ ==> t.round_corners && errors == state.1
            &&& key == "round_corners"@ && v == "disabled"@ ==> !t.round_corners && errors == state.1
        }),
{
    lemma_theme_literals();
    reveal_strlit("dark");
    reveal_strlit("light");
    reveal_strlit("enabled");
    assert("dark"@ =~= seq!['d', 'a', 'r', 'k']);
    assert("light"@ =~= seq!['l', 'i', 'g', 'h', 't']);
    assert("enabled"@ =~= seq!['e', 'n', 'a', 'b', 'l', 'e', 'd']);
}
} // verus!
