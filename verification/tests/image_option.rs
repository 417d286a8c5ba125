use faircamp::image_option::{read_image_option, ImageOption, ReferencedFile, COVER_SHAPE_ERROR, IMAGE_ATTRIBUTE_ERROR};
use faircamp::release_manifest::{ManifestAttribute, ManifestElement};

fn attribute(key: &str, value: Option<&str>, line_number: usize) -> ManifestAttribute {
    ManifestAttribute { key: key.to_string(), value: value.map(|v| v.to_string()), line_number, snippet: format!("{key} = ...") }
}

fn element(key: &str, attributes: Option<Vec<ManifestAttribute>>) -> ManifestElement {
    ManifestElement {
        key: key.to_string(),
        field_value: None,
        field_items: None,
        field_attributes: attributes,
        embed_value: None,
        is_flag: false,
        line_number: 7,
        snippet: String::from("cover: ..."),
    }
}

fn found(path: &str, exists: bool) -> Option<ReferencedFile> {
    Some(ReferencedFile {
        shown_path: format!("/music/album/{path}"),
        exists,
        relative_path: format!("album/{path}"),
    })
}

#[test]
fn cover_with_description_and_existing_file() {
    let attributes = vec![attribute("description", Some("Alice, looking amused"), 8), attribute("file", Some("alice.jpg"), 9)];
    let mut errors = Vec::new();
    let (handled, image) = read_image_option(&element("cover", Some(attributes)), &vec![None, found("alice.jpg", true)], "release.eno", ImageOption::Cover, &mut errors);
    assert!(handled);
    assert_eq!(image, Some((Some(String::from("Alice, looking amused")), String::from("album/alice.jpg"))));
    assert!(errors.is_empty());
}

#[test]
fn missing_file_gives_no_image_and_an_error() {
    let attributes = vec![attribute("file", Some("gone.jpg"), 8)];
    let mut errors = Vec::new();
    let (handled, image) = read_image_option(&element("cover", Some(attributes)), &vec![found("gone.jpg", false)], "release.eno", ImageOption::Cover, &mut errors);
    assert!(handled);
    assert_eq!(image, None);
    assert_eq!(errors, vec!["Error in release.eno:8:\n\nfile = ...\n\nThe referenced file was not found (/music/album/gone.jpg)".to_string()]);
}

#[test]
fn unknown_attribute_is_an_error_about_the_element() {
    let attributes = vec![attribute("caption", Some("x"), 8), attribute("file", Some("a.png"), 9)];
    let mut errors = Vec::new();
    let (handled, image) = read_image_option(&element("image", Some(attributes)), &vec![None, found("a.png", true)], "artist.eno", ImageOption::Image, &mut errors);
    assert!(handled);
    assert_eq!(image, Some((None, String::from("album/a.png"))));
    assert_eq!(errors, vec![format!("Error in artist.eno:7:\n\ncover: ...\n\n{IMAGE_ATTRIBUTE_ERROR}")]);
}

#[test]
fn cover_of_another_shape_and_other_keys() {
    let mut errors = Vec::new();
    assert_eq!(read_image_option(&element("cover", None), &Vec::new(), "track.eno", ImageOption::Cover, &mut errors), (true, None));
    assert_eq!(errors, vec![format!("Error in track.eno:7:\n\ncover: ...\n\n{COVER_SHAPE_ERROR}")]);
    assert_eq!(read_image_option(&element("image", None), &Vec::new(), "track.eno", ImageOption::Cover, &mut errors), (false, None));
    assert_eq!(errors.len(), 1);
}
