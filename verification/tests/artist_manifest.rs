use faircamp::artist_manifest::{read_artist_option, ArtistManifestOptions, ALIASES_SHAPE_ERROR, NAME_SHAPE_ERROR};
use faircamp::release_manifest::ManifestElement;

fn element(key: &str, field_value: Option<Option<&str>>, items: Option<Vec<Option<&str>>>) -> ManifestElement {
    ManifestElement {
        key: key.to_string(),
        field_value: field_value.map(|v| v.map(|s| s.to_string())),
        field_items: items.map(|items| items.into_iter().map(|i| i.map(|s| s.to_string())).collect()),
        field_attributes: None,
        embed_value: None,
        is_flag: false,
        line_number: 2,
        snippet: String::from("snippet"),
    }
}

fn fresh() -> ArtistManifestOptions {
    ArtistManifestOptions { aliases: Vec::new(), external_page: None, name: String::from("alice-dir") }
}

#[test]
fn name_alias_and_aliases_are_read() {
    let mut options = fresh();
    let mut errors = Vec::new();
    assert!(read_artist_option(&element("name", Some(Some("Alice")), None), "artist.eno", &mut options, &mut errors));
    assert_eq!(options.name, "Alice");
    assert!(read_artist_option(&element("aliases", None, Some(vec![Some("Älice"), None, Some("Älicë")])), "artist.eno", &mut options, &mut errors));
    assert_eq!(options.aliases, vec!["Älice", "Älicë"]);
    assert!(read_artist_option(&element("alias", Some(Some("Al")), None), "artist.eno", &mut options, &mut errors));
    assert_eq!(options.aliases, vec!["Al"]);
    assert!(read_artist_option(&element("name", Some(None), None), "artist.eno", &mut options, &mut errors));
    assert_eq!(options.name, "Alice");
    assert!(errors.is_empty());
}

#[test]
fn external_page_must_parse() {
    let mut options = fresh();
    let mut errors = Vec::new();
    assert!(read_artist_option(&element("external_page", Some(Some("https://alice.example.com")), None), "artist.eno", &mut options, &mut errors));
    assert_eq!(options.external_page.as_deref(), Some("https://alice.example.com"));
    assert!(read_artist_option(&element("external_page", Some(Some("alice.example.com")), None), "artist.eno", &mut options, &mut errors));
    assert_eq!(options.external_page.as_deref(), Some("https://alice.example.com"));
    assert_eq!(
        errors,
        vec!["Error in artist.eno:2:\n\nsnippet\n\nThe url supplied for the external_page option seems to be malformed (relative URL without a base)".to_string()]
    );
}

#[test]
fn artist_options_of_the_wrong_shape_are_errors() {
    let mut options = fresh();
    let mut errors = Vec::new();
    assert!(read_artist_option(&element("name", None, Some(vec![Some("A")])), "artist.eno", &mut options, &mut errors));
    assert!(read_artist_option(&element("aliases", Some(Some("A")), None), "artist.eno", &mut options, &mut errors));
    assert_eq!(options.name, "alice-dir");
    assert!(options.aliases.is_empty());
    assert_eq!(
        errors,
        vec![
            format!("Error in artist.eno:2:\n\nsnippet\n\n{NAME_SHAPE_ERROR}"),
            format!("Error in artist.eno:2:\n\nsnippet\n\n{ALIASES_SHAPE_ERROR}"),
        ]
    );
    assert!(!read_artist_option(&element("title", Some(Some("x")), None), "artist.eno", &mut options, &mut errors));
    assert_eq!(errors.len(), 2);
}
