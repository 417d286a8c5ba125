use faircamp::link::Link;
use faircamp::link_option::{read_link_option, LINK_SHAPE_ERROR, LINK_URL_MISSING};
use faircamp::release_manifest::{ManifestAttribute, ManifestElement};

fn attribute(key: &str, value: Option<&str>, line_number: usize) -> ManifestAttribute {
    ManifestAttribute {
        key: key.to_string(),
        value: value.map(|v| v.to_string()),
        line_number,
        snippet: format!("{key} = ..."),
    }
}

fn element(key: &str, field_value: Option<Option<&str>>, attributes: Option<Vec<ManifestAttribute>>) -> ManifestElement {
    ManifestElement {
        key: key.to_string(),
        field_value: field_value.map(|v| v.map(|s| s.to_string())),
        field_items: None,
        field_attributes: attributes,
        embed_value: None,
        is_flag: false,
        line_number: 3,
        snippet: String::from("link: ..."),
    }
}

fn read(element: &ManifestElement) -> (bool, Vec<Link>, Vec<String>) {
    let mut links = Vec::new();
    let mut errors = Vec::new();
    let handled = read_link_option(element, "release.eno", &mut links, &mut errors);
    (handled, links, errors)
}

fn element_error(message: &str) -> String {
    format!("Error in release.eno:3:\n\nlink: ...\n\n{message}")
}

#[test]
fn other_keys_are_left_alone() {
    let (handled, links, errors) = read(&element("title", Some(Some("https://example.com")), None));
    assert!(!handled);
    assert!(links.is_empty());
    assert!(errors.is_empty());
}

#[test]
fn plain_url_gives_a_full_link_labelled_without_scheme() {
    let (handled, links, errors) = read(&element("link", Some(Some("https://example.com/")), None));
    assert!(handled);
    assert!(errors.is_empty());
    assert_eq!(links.len(), 1);
    match &links[0] {
        Link::Full { hidden, label, rel_me, url } => {
            assert!(!hidden);
            assert!(!rel_me);
            assert_eq!(label, "example.com");
            assert_eq!(url, "https://example.com/");
        }
        other => panic!("unexpected link {other:?}"),
    }
}

#[test]
fn plain_anchor_needs_the_extended_form() {
    let (handled, links, errors) = read(&element("link", Some(Some("#about")), None));
    assert!(handled);
    assert!(links.is_empty());
    assert_eq!(
        errors,
        vec![element_error("For internal, anchor-only links it is mandatory to provide a label, therefore please use the extended form as a field with attributes, e.g.:\n\nlink:\nlabel = Some label\nurl = #about\n")]
    );
}

#[test]
fn plain_value_that_is_no_url_is_an_error() {
    let (handled, links, errors) = read(&element("link", Some(Some("example.com")), None));
    assert!(handled);
    assert!(links.is_empty());
    assert_eq!(
        errors,
        vec![element_error("The url supplied for the link seems to be malformed (relative URL without a base).\nFull urls (e.g. \"https://example.com\") and internal references (e.g. \"#example\") are supported.\n")]
    );
}

#[test]
fn empty_link_field_does_nothing() {
    let (handled, links, errors) = read(&element("link", Some(None), None));
    assert!(handled);
    assert!(links.is_empty());
    assert!(errors.is_empty());
}

#[test]
fn link_of_another_shape_is_an_error() {
    let (handled, links, errors) = read(&element("link", None, None));
    assert!(handled);
    assert!(links.is_empty());
    assert_eq!(errors, vec![element_error(LINK_SHAPE_ERROR)]);
}

#[test]
fn extended_form_with_label_and_hidden_verification() {
    let attributes = vec![
        attribute("label", Some("My profile"), 4),
        attribute("url", Some("https://social.example/@me"), 5),
        attribute("verification", Some("rel-me-hidden"), 6),
    ];
    let (handled, links, errors) = read(&element("link", None, Some(attributes)));
    assert!(handled);
    assert!(errors.is_empty());
    match &links[..] {
        [Link::Full { hidden, label, rel_me, url }] => {
            assert!(*hidden);
            assert!(*rel_me);
            assert_eq!(label, "My profile");
            assert_eq!(url, "https://social.example/@me");
        }
        other => panic!("unexpected links {other:?}"),
    }
}

#[test]
fn extended_form_without_label_uses_the_url() {
    let attributes = vec![attribute("url", Some("http://example.com"), 4), attribute("verification", Some("rel-me"), 5)];
    let (_, links, errors) = read(&element("link", None, Some(attributes)));
    assert!(errors.is_empty());
    match &links[..] {
        [Link::Full { hidden, label, rel_me, .. }] => {
            assert!(!*hidden);
            assert!(*rel_me);
            assert_eq!(label, "example.com");
        }
        other => panic!("unexpected links {other:?}"),
    }
}

#[test]
fn anchor_with_label_gives_an_anchor_link() {
    let attributes = vec![attribute("url", Some("#credits"), 4), attribute("label", Some("Credits"), 5)];
    let (_, links, errors) = read(&element("link", None, Some(attributes)));
    assert!(errors.is_empty());
    match &links[..] {
        [Link::Anchor { id, label }] => {
            assert_eq!(id, "#credits");
            assert_eq!(label, "Credits");
        }
        other => panic!("unexpected links {other:?}"),
    }
}

#[test]
fn anchor_without_label_is_an_error() {
    let attributes = vec![attribute("url", Some("#credits"), 4)];
    let (_, links, errors) = read(&element("link", None, Some(attributes)));
    assert!(links.is_empty());
    assert_eq!(
        errors,
        vec![element_error("For internal, anchor-only links it is mandatory to provide a label, therefore please provide one for your link to '#credits' like this:\n\nlink:\nlabel = Some label\nurl = #credits\n")]
    );
}

#[test]
fn anchor_with_verification_is_an_error() {
    let attributes = vec![
        attribute("url", Some("#credits"), 4),
        attribute("label", Some("Credits"), 5),
        attribute("verification", Some("rel-me"), 6),
    ];
    let (_, links, errors) = read(&element("link", None, Some(attributes)));
    assert!(links.is_empty());
    assert_eq!(
        errors,
        vec![element_error("For internal, anchor-only links the verification option is not supported, please remove it from your link to '#credits'.")]
    );
}

#[test]
fn unknown_attributes_and_values_are_reported_in_order() {
    let attributes = vec![
        attribute("colour", Some("red"), 4),
        attribute("verification", Some("maybe"), 5),
        attribute("url", Some("nowhere"), 6),
    ];
    let (_, links, errors) = read(&element("link", None, Some(attributes)));
    assert!(links.is_empty());
    assert_eq!(
        errors,
        vec![
            "Error in release.eno:4:\n\ncolour = ...\n\nThe attribute 'colour' is not recognized here (supported attributes are 'label', 'url' and 'verification'".to_string(),
            "Error in release.eno:5:\n\nverification = ...\n\nThe verification attribute value 'maybe' is not recognized, allowed are 'rel-me' and 'rel-me-hidden'".to_string(),
            "Error in release.eno:6:\n\nurl = ...\n\nThe url supplied for the link seems to be malformed (relative URL without a base).\nFull urls (e.g. \"https://example.com\") and internal references (e.g. \"#example\") are supported.\n".to_string(),
            element_error(LINK_URL_MISSING),
        ]
    );
}
