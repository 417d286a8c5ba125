use faircamp::render::{
    release_artist_items, track_artist_items, truncate_artist_list, ArtistListContext, ListedArtist, Truncation,
};

fn items(names: &[&str]) -> Vec<(usize, String)> {
    names.iter().map(|name| (name.chars().count(), name.to_string())).collect()
}

fn truncate(max_chars: usize) -> Truncation {
    Truncation::Truncate { max_chars, others_link: String::from("#more") }
}

#[test]
fn artist_list_that_fits_is_joined() {
    let list = truncate_artist_list(&items(&["Alice", "Bob", "Carol"]), &truncate(17), true);
    assert_eq!(list.html, "Alice, Bob, Carol");
    assert!(!list.truncated);
}

#[test]
fn artist_list_in_label_mode_keeps_the_artists_that_fit() {
    let list = truncate_artist_list(&items(&["Alice", "Bob", "Carol"]), &truncate(10), true);
    assert_eq!(list.html, "Alice, Bob");
    assert!(list.truncated);
}

#[test]
fn artist_list_in_label_mode_keeps_the_first_artist_even_if_too_long() {
    let list = truncate_artist_list(&items(&["A very long artist name", "Bob", "Carol"]), &truncate(10), true);
    assert_eq!(list.html, "A very long artist name");
    assert!(list.truncated);
}

#[test]
fn artist_list_in_artist_mode_keeps_only_the_catalog_artist() {
    let list = truncate_artist_list(&items(&["Alice", "Bob", "Carol"]), &truncate(16), false);
    assert_eq!(list.html, "Alice");
    assert!(list.truncated);
}

#[test]
fn artist_list_of_two_is_never_cut() {
    let list = truncate_artist_list(&items(&["A very long artist name", "Another long name"]), &truncate(5), false);
    assert_eq!(list.html, "A very long artist name, Another long name");
    assert!(!list.truncated);
}

#[test]
fn artist_list_passed_through_is_never_cut() {
    let list = truncate_artist_list(&items(&["Alice", "Bob", "Carol", "Dave"]), &Truncation::Pass, true);
    assert_eq!(list.html, "Alice, Bob, Carol, Dave");
    assert!(!list.truncated);
}

#[test]
fn artist_list_counts_given_characters_not_markup() {
    let list = vec![
        (5, String::from(r#"<a href="alice/">Alice</a>"#)),
        (3, String::from("Bob")),
        (5, String::from("Carol")),
    ];
    let kept = truncate_artist_list(&list, &truncate(9), true);
    assert_eq!(kept.html, r#"<a href="alice/">Alice</a>, Bob"#);
    assert!(kept.truncated);
}

#[test]
fn artist_list_in_label_mode_shows_nameless_leaders_and_the_next_artist() {
    let list = vec![(0, String::from("X")), (50, String::from("Long")), (1, String::from("Y"))];
    let kept = truncate_artist_list(&list, &truncate(10), true);
    assert_eq!(kept.html, "X, Long");
    assert!(kept.truncated);
}

#[test]
fn empty_artist_list_is_empty() {
    let list = truncate_artist_list(&Vec::new(), &truncate(0), true);
    assert_eq!(list.html, "");
    assert!(!list.truncated);
}

fn artist(id: usize, name: &str, unlisted: bool, featured: bool, external: Option<&str>) -> ListedArtist {
    ListedArtist {
        id,
        name: String::from(name),
        unlisted,
        featured,
        external_page: external.map(String::from),
        permalink_slug: name.to_lowercase().replace(' ', "-"),
    }
}

fn context(catalog_artist: Option<usize>, label_mode: bool, feature: bool, show: bool) -> ArtistListContext {
    ArtistListContext {
        root_prefix: String::from("../"),
        index_suffix: String::from("index.html"),
        catalog_artist,
        label_mode,
        feature_support_artists: feature,
        show_support_artists: show,
    }
}

#[test]
fn release_artist_items_in_artist_mode() {
    let main = vec![
        artist(1, "Guest", false, false, None),
        artist(0, "Me & Co", false, true, None),
        artist(2, "Far", false, false, Some("https://far.example")),
    ];
    let support = vec![artist(3, "Helper", false, false, None), artist(4, "Hidden", true, false, None)];
    let items = release_artist_items(&main, &support, &context(Some(0), false, true, false));
    assert_eq!(
        items,
        vec![
            (7, String::from(r#"<a href="../.index.html">Me &amp; Co</a>"#)),
            (5, String::from("Guest")),
            (3, String::from(r#"<a href="https://far.example" target="_blank">Far</a>"#)),
            (6, String::from(r#"<a href="../helperindex.html">Helper</a>"#)),
            (6, String::from("Hidden")),
        ]
    );
}

#[test]
fn release_artist_items_in_label_mode_link_every_listed_artist() {
    let main = vec![artist(5, "Ann", false, false, None), artist(6, "Ben", true, false, None)];
    let support = vec![artist(7, "Cy", false, false, Some("https://cy.example"))];
    let items = release_artist_items(&main, &support, &context(None, true, false, true));
    assert_eq!(
        items,
        vec![
            (3, String::from(r#"<a href="../annindex.html">Ann</a>"#)),
            (3, String::from("Ben")),
            (2, String::from(r#"<a href="https://cy.example" target="_blank">Cy</a>"#)),
        ]
    );
    let without_support = release_artist_items(&main, &support, &context(None, true, false, false));
    assert_eq!(without_support.len(), 2);
}

#[test]
fn track_artist_items_put_the_catalog_artist_first() {
    let artists = vec![
        artist(4, "Dee", false, true, None),
        artist(9, "Zoe", false, false, None),
        artist(0, "Main", false, false, None),
    ];
    let items = track_artist_items(&artists, &context(Some(0), false, false, false));
    assert_eq!(
        items,
        vec![
            (4, String::from(r#"<a href="../.index.html">Main</a>"#)),
            (3, String::from(r#"<a href="../deeindex.html">Dee</a>"#)),
            (3, String::from("Zoe")),
        ]
    );
}
