use faircamp::cover_generator::CoverGenerator;
use faircamp::image_option::ReferencedFile;
use faircamp::release_manifest::{ManifestAttribute, ManifestElement};
use faircamp::theme_option::{read_theme_option, ThemeBase, ThemeFont, ThemeSettings, SYSTEM_FONT_WARNING, THEME_SHAPE_ERROR};

fn attribute(key: &str, value: Option<&str>) -> ManifestAttribute {
    ManifestAttribute { key: key.to_string(), value: value.map(|v| v.to_string()), line_number: 5, snippet: format!("{key} = ...") }
}

fn element(attributes: Option<Vec<ManifestAttribute>>) -> ManifestElement {
    ManifestElement {
        key: String::from("theme"),
        field_value: None,
        field_items: None,
        field_attributes: attributes,
        embed_value: None,
        is_flag: false,
        line_number: 4,
        snippet: String::from("theme: ..."),
    }
}

fn default_theme() -> ThemeSettings {
    ThemeSettings {
        accent_brightening: 50,
        accent_chroma: None,
        accent_hue: None,
        background_alpha: 10,
        background_image: None,
        base: ThemeBase::Light,
        base_chroma: 0,
        base_hue: 0,
        cover_generator: CoverGenerator::LooneyTunes,
        dynamic_range: 0,
        font: ThemeFont::SystemSans,
        relative_waveforms: true,
        round_corners: false,
        waveforms: true,
    }
}

fn attribute_error(key: &str, message: &str) -> String {
    format!("Error in catalog.eno:5:\n\n{key} = ...\n\n{message}")
}

#[test]
fn theme_values_in_range_are_taken() {
    let attributes = vec![
        attribute("accent_brightening", Some("100")),
        attribute("accent_chroma", Some("+7")),
        attribute("accent_hue", Some("360")),
        attribute("base", Some("dark")),
        attribute("cover_generator", Some("blocks")),
        attribute("round_corners", Some("enabled")),
        attribute("waveforms", Some("absolute")),
        attribute("system_font", Some("mono")),
        attribute("dynamic_range", None),
    ];
    let mut theme = default_theme();
    let (mut errors, mut warnings) = (Vec::new(), Vec::new());
    let files: Vec<Option<ReferencedFile>> = attributes.iter().map(|_| None).collect();
    assert!(read_theme_option(&element(Some(attributes)), &files, "catalog.eno", &mut theme, &mut errors, &mut warnings));
    assert!(errors.is_empty() && warnings.is_empty());
    assert_eq!(theme.accent_brightening, 100);
    assert_eq!(theme.accent_chroma, Some(7));
    assert_eq!(theme.accent_hue, Some(360));
    assert_eq!(theme.base, ThemeBase::Dark);
    assert_eq!(theme.cover_generator, CoverGenerator::Blocks);
    assert!(theme.round_corners);
    assert!(theme.waveforms && !theme.relative_waveforms);
    assert!(matches!(theme.font, ThemeFont::SystemMono));
    assert_eq!(theme.dynamic_range, 0);
}

#[test]
fn theme_values_out_of_range_are_errors() {
    let attributes = vec![
        attribute("base_chroma", Some("101")),
        attribute("base_hue", Some("-5")),
        attribute("base", Some("grey")),
        attribute("waveforms", Some("sometimes")),
        attribute("colour", Some("red")),
        attribute("link_hue", Some("20")),
        attribute("background_image", Some("missing.jpg")),
    ];
    let files = vec![None, None, None, None, None, None, Some(ReferencedFile { shown_path: String::from("/c/missing.jpg"), exists: false, relative_path: String::from("missing.jpg") })];
    let mut theme = default_theme();
    let (mut errors, mut warnings) = (Vec::new(), Vec::new());
    assert!(read_theme_option(&element(Some(attributes)), &files, "catalog.eno", &mut theme, &mut errors, &mut warnings));
    assert_eq!(theme.base_chroma, 0);
    assert_eq!(theme.base_hue, 0);
    assert_eq!(theme.base, ThemeBase::Light);
    assert!(warnings.is_empty());
    assert_eq!(
        errors,
        vec![
            attribute_error("base_chroma", "Unsupported value '101' for 'base_chroma' (accepts a percentage in the range 0-100 - without the % sign)"),
            attribute_error("base_hue", "Unsupported value '-5' for 'base_hue' (accepts an amount of degrees in the range 0-360)"),
            attribute_error("base", "Invalid base setting value 'grey' (supported values are 'dark' and 'light')"),
            attribute_error("waveforms", "Ignoring unsupported waveforms setting value 'sometimes' (supported values are 'absolute', 'relative' and 'disabled')"),
            attribute_error("colour", "The attribute 'colour' is not recognized here (supported attributes are 'accent_brightening', 'accent_chroma', 'accent_hue', 'background_alpha', 'background_image', 'base', 'base_chroma', 'base_hue', 'cover_generator', 'dynamic_range', 'round_corners', 'system_font' and 'waveforms')"),
            attribute_error("link_hue", "Since faircamp 0.16.0, theming works differently and the link_hue setting needs to be replaced (the base_hue attribute is the closest alternative)"),
            attribute_error("background_image", "Invalid background_image setting value 'missing.jpg' (The referenced file was not found)"),
        ]
    );
}

#[test]
fn theme_files_and_system_fonts() {
    let attributes = vec![attribute("background_image", Some("bg.jpg")), attribute("system_font", Some("Comic Sans"))];
    let files = vec![Some(ReferencedFile { shown_path: String::from("/c/bg.jpg"), exists: true, relative_path: String::from("art/bg.jpg") }), None];
    let mut theme = default_theme();
    let (mut errors, mut warnings) = (Vec::new(), Vec::new());
    assert!(read_theme_option(&element(Some(attributes)), &files, "catalog.eno", &mut theme, &mut errors, &mut warnings));
    assert!(errors.is_empty());
    assert_eq!(theme.background_image.as_deref(), Some("art/bg.jpg"));
    assert!(matches!(theme.font, ThemeFont::System(ref name) if name == "Comic Sans"));
    assert_eq!(warnings, vec![format!("Error in catalog.eno:4:\n\ntheme: ...\n\n{SYSTEM_FONT_WARNING}")]);

    assert!(read_theme_option(&element(None), &Vec::new(), "catalog.eno", &mut theme, &mut errors, &mut warnings));
    assert_eq!(errors, vec![format!("Error in catalog.eno:4:\n\ntheme: ...\n\n{THEME_SHAPE_ERROR}")]);
}
