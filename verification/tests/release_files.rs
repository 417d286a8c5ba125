use faircamp::catalog::{
    catalog_title, cover_priority, pick_best_cover_by_lower_stem, pick_best_cover_image, release_asset_basename,
    release_basename, track_asset_basename, track_basename,
};

fn strings(items: &[&str]) -> Vec<String> {
    items.iter().map(|s| s.to_string()).collect()
}

#[test]
fn release_basename_joins_artists_and_title() {
    assert_eq!(release_basename(&strings(&["Alice", "Bob"]), "Debut"), "Alice, Bob - Debut");
    assert_eq!(release_basename(&Vec::new(), "Debut"), "Debut");
}

#[test]
fn track_basename_pads_the_number() {
    assert_eq!(track_basename(3, &strings(&["Alice"]), "Intro"), "03 Alice - Intro");
    assert_eq!(track_basename(12, &Vec::new(), "Outro"), "12 Outro");
    assert_eq!(track_basename(0, &Vec::new(), "Zero"), "00 Zero");
    assert_eq!(track_basename(123, &strings(&["A", "B"]), "Long"), "123 A, B - Long");
}

#[test]
fn release_asset_basename_sanitizes_names_and_title() {
    assert_eq!(
        release_asset_basename(&strings(&["AC/DC", "Björk"]), "Back: in Black?"),
        "ACDC, Björk - Back in Black"
    );
}

#[test]
fn track_asset_basename_sanitizes_names_and_title() {
    assert_eq!(track_asset_basename(7, &strings(&["A|B"]), "x<y>z"), "07 AB - xyz");
    assert_eq!(track_asset_basename(10, &Vec::new(), "tab\there"), "10 tabhere");
}

#[test]
fn cover_priorities() {
    assert_eq!(cover_priority("cover"), 1);
    assert_eq!(cover_priority("front"), 2);
    assert_eq!(cover_priority("album"), 3);
    assert_eq!(cover_priority("back"), 4);
    assert_eq!(cover_priority("Cover"), 4);
}

#[test]
fn best_cover_is_the_first_with_the_best_priority() {
    assert_eq!(pick_best_cover_by_lower_stem(&strings(&["back", "album", "front", "front"])), Some(2));
    assert_eq!(pick_best_cover_by_lower_stem(&strings(&["a", "b"])), Some(0));
    assert_eq!(pick_best_cover_by_lower_stem(&Vec::new()), None);
}

#[test]
fn best_cover_image_ignores_case() {
    assert_eq!(pick_best_cover_image(&strings(&["Booklet", "FRONT", "Cover"])), Some(2));
    assert_eq!(pick_best_cover_image(&strings(&["Album", "scan"])), Some(0));
}

#[test]
fn catalog_title_falls_back_to_artist_then_default() {
    let title = Some(String::from("My Label"));
    let artist = Some(String::from("Alice"));
    assert_eq!(catalog_title(&title, false, &artist), "My Label");
    assert_eq!(catalog_title(&None, false, &artist), "Alice");
    assert_eq!(catalog_title(&None, true, &artist), "Faircamp");
    assert_eq!(catalog_title(&None, false, &None), "Faircamp");
}

#[test]
fn plain_names_are_used_unchanged_in_basenames() {
    assert_eq!(
        release_asset_basename(&strings(&["Alice & Bob", "Zoë"]), "First Light (Deluxe)"),
        "Alice & Bob, Zoë - First Light (Deluxe)"
    );
    assert_eq!(track_asset_basename(3, &strings(&["Alice"]), "Dawn, Part 2"), "03 Alice - Dawn, Part 2");
    assert_eq!(track_asset_basename(12, &Vec::new(), "Intro"), "12 Intro");
}
