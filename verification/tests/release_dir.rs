use faircamp::release_dir::{extra_file_paths, release_artists_to_map, release_title, track_order, track_title, Extra};

fn strings(items: &[&str]) -> Vec<String> {
    items.iter().map(|s| s.to_string()).collect()
}

fn lists(items: &[&[&str]]) -> Vec<Vec<String>> {
    items.iter().map(|l| strings(l)).collect()
}

#[test]
fn tracks_order_by_number_then_unnumbered_by_file_name() {
    let tracks = vec![
        (None, String::from("b.flac")),
        (Some(2), String::from("x.flac")),
        (None, String::from("a.flac")),
        (Some(1), String::from("y.flac")),
        (Some(2), String::from("w.flac")),
    ];
    assert_eq!(track_order(&tracks), vec![3, 1, 4, 2, 0]);
    assert!(track_order(&Vec::new()).is_empty());
}

#[test]
fn release_title_from_manifest_wins() {
    let tags = vec![Some(String::from("Album"))];
    assert_eq!(release_title(Some(String::from("Manifest")), &tags, "dir"), "Manifest");
}

#[test]
fn release_title_is_the_most_common_album_tag() {
    let tags = vec![
        Some(String::from("B")),
        Some(String::from("A")),
        None,
        Some(String::from("A")),
        Some(String::from("B")),
        Some(String::from("C")),
    ];
    // A and B both occur twice; B occurred first, so A (first occurring
    // later) is chosen, as the ascending sort and pop of the metrics do.
    assert_eq!(release_title(None, &tags, "dir"), "A");
    let tags = vec![Some(String::from("X")), Some(String::from("Y")), Some(String::from("Y"))];
    assert_eq!(release_title(None, &tags, "dir"), "Y");
}

#[test]
fn release_title_falls_back_to_the_directory_name() {
    assert_eq!(release_title(None, &vec![None, None], "My Release"), "My Release");
}

#[test]
fn release_artists_from_manifest() {
    let (main, support) = release_artists_to_map(
        &strings(&["Alice"]),
        &lists(&[&["Zed"]]),
        &lists(&[&["Alice", "Bob"], &["Carol", "Bob"]]),
    );
    assert_eq!(main, strings(&["Alice"]));
    assert_eq!(support, strings(&["Bob", "Carol"]));
}

#[test]
fn release_artists_from_album_artist_tags() {
    let (main, support) = release_artists_to_map(
        &Vec::new(),
        &lists(&[&["Duo"], &[], &["Duo", "Eve"]]),
        &lists(&[&["Duo", "Fay"], &["Eve"], &["Gus"]]),
    );
    assert_eq!(main, strings(&["Duo", "Eve"]));
    assert_eq!(support, strings(&["Fay", "Gus"]));
}

#[test]
fn release_artists_counted_from_track_artists() {
    let (main, support) = release_artists_to_map(
        &Vec::new(),
        &lists(&[&[], &[]]),
        &lists(&[&["Ann", "Ben"], &["Cy", "Ann"], &["Ben", "Dee"], &["Cy"], &["Ed", "Dee", "Dee"]]),
    );
    // Ann 2, Ben 2, Cy 2, Dee 3, Ed 1
    assert_eq!(main, strings(&["Dee"]));
    assert_eq!(support, strings(&["Ann", "Ben", "Cy", "Ed"]));
}

#[test]
fn release_artists_ties_at_the_top_are_all_main() {
    let (main, support) = release_artists_to_map(&Vec::new(), &Vec::new(), &lists(&[&["A", "B"], &["C"]]));
    assert_eq!(main, strings(&["A", "B", "C"]));
    assert!(support.is_empty());
    let (main, support) = release_artists_to_map(&Vec::new(), &Vec::new(), &Vec::new());
    assert!(main.is_empty() && support.is_empty());
}

#[test]
fn track_titles() {
    assert_eq!(track_title(Some(String::from("Given")), Some(String::from("Album")), "01 file"), "Given");
    assert_eq!(track_title(None, Some(String::from("Album")), "01 file"), "Album");
    assert_eq!(track_title(None, None, "01 file"), "01 file");
}

#[test]
fn extras_leave_out_the_cover_and_keep_the_order() {
    let images = vec!["a.jpg".to_string(), "cover.jpg".to_string(), "b.png".to_string()];
    let others = vec!["notes.pdf".to_string(), "lyrics.txt".to_string()];
    assert_eq!(
        extra_file_paths(&images, Some("cover.jpg"), &others),
        vec!["a.jpg", "b.png", "notes.pdf", "lyrics.txt"]
    );
    assert_eq!(
        extra_file_paths(&images, None, &Vec::new()),
        vec!["a.jpg", "cover.jpg", "b.png"]
    );
    assert_eq!(extra_file_paths(&Vec::new(), Some("cover.jpg"), &others), vec!["notes.pdf", "lyrics.txt"]);
}

#[test]
fn extras_are_offered_under_their_sanitized_names() {
    let plain = Extra::new(String::from("album/liner-notes.pdf"), "liner-notes.pdf");
    assert_eq!(plain.path, "album/liner-notes.pdf");
    assert_eq!(plain.sanitized_filename, "liner-notes.pdf");
    let odd = Extra::new(String::from("album/what?.txt"), "what?.txt");
    assert_eq!(odd.sanitized_filename, "what.txt");
}
