use faircamp::artist_mapping::{public_releases, ArtistCatalog, KnownArtist, ReleaseArtists, TrackArtists};

fn strings(items: &[&str]) -> Vec<String> {
    items.iter().map(|s| s.to_string()).collect()
}

fn release(main: &[&str], support: &[&str], tracks: &[&[&str]]) -> ReleaseArtists {
    ReleaseArtists {
        main_artists_to_map: strings(main),
        support_artists_to_map: strings(support),
        main_artists: Vec::new(),
        support_artists: Vec::new(),
        tracks: tracks
            .iter()
            .map(|names| TrackArtists { artists_to_map: strings(names), artists: Vec::new() })
            .collect(),
    }
}

#[test]
fn names_map_to_known_artists_or_new_ones() {
    let mut catalog = ArtistCatalog {
        artists: vec![KnownArtist {
            name: String::from("Alice"),
            aliases: strings(&["Alicia"]),
            releases: Vec::new(),
        }],
        main_artists: Vec::new(),
        support_artists: Vec::new(),
        releases: vec![
            release(&["Alicia", "Bob"], &["Alice", "Carol"], &[&["Bob", "Dave"]]),
            release(&["Carol"], &["Alice"], &[]),
        ],
    };
    catalog.map_artists();

    let names: Vec<&str> = catalog.artists.iter().map(|a| a.name.as_str()).collect();
    assert_eq!(names, vec!["Alice", "Bob", "Carol", "Dave"]);
    let releases: Vec<Vec<usize>> = catalog.artists.iter().map(|a| a.releases.clone()).collect();
    assert_eq!(releases, vec![vec![0, 1], vec![0], vec![0, 1], vec![]]);
    assert_eq!(catalog.main_artists, vec![0, 1, 2]);
    assert_eq!(catalog.support_artists, vec![2]);

    let first = &catalog.releases[0];
    assert_eq!(first.main_artists, vec![0, 1]);
    assert_eq!(first.support_artists, vec![2]);
    assert_eq!(first.tracks[0].artists, vec![1, 3]);
    assert!(first.main_artists_to_map.is_empty());
    assert!(first.support_artists_to_map.is_empty());
    assert!(first.tracks[0].artists_to_map.is_empty());

    let second = &catalog.releases[1];
    assert_eq!(second.main_artists, vec![2]);
    assert_eq!(second.support_artists, vec![0]);
}

#[test]
fn a_name_maps_to_every_artist_that_answers_to_it() {
    let mut catalog = ArtistCatalog {
        artists: vec![
            KnownArtist { name: String::from("Duo"), aliases: Vec::new(), releases: Vec::new() },
            KnownArtist { name: String::from("Eve"), aliases: strings(&["Duo"]), releases: Vec::new() },
        ],
        main_artists: Vec::new(),
        support_artists: Vec::new(),
        releases: vec![release(&["Duo", "Duo"], &[], &[&["Duo"]])],
    };
    catalog.map_artists();
    assert_eq!(catalog.artists.len(), 2);
    assert_eq!(catalog.releases[0].main_artists, vec![0, 1]);
    assert_eq!(catalog.main_artists, vec![0, 1]);
    assert_eq!(catalog.releases[0].tracks[0].artists, vec![0, 1]);
    assert_eq!(catalog.artists[0].releases, vec![0]);
    assert_eq!(catalog.artists[1].releases, vec![0]);
}

#[test]
fn support_artists_already_credited_as_main_are_not_repeated() {
    let mut catalog = ArtistCatalog {
        artists: Vec::new(),
        main_artists: Vec::new(),
        support_artists: Vec::new(),
        releases: vec![release(&["Zed"], &["Zed", "Yan"], &[])],
    };
    catalog.map_artists();
    assert_eq!(catalog.releases[0].main_artists, vec![0]);
    assert_eq!(catalog.releases[0].support_artists, vec![1]);
    assert_eq!(catalog.main_artists, vec![0]);
    assert_eq!(catalog.support_artists, vec![1]);
    assert_eq!(catalog.artists[0].releases, vec![0]);
}

#[test]
fn mapping_without_releases_changes_nothing() {
    let mut catalog = ArtistCatalog {
        artists: vec![KnownArtist { name: String::from("Solo"), aliases: Vec::new(), releases: vec![3] }],
        main_artists: vec![0],
        support_artists: Vec::new(),
        releases: Vec::new(),
    };
    catalog.map_artists();
    assert_eq!(catalog.artists.len(), 1);
    assert_eq!(catalog.artists[0].releases, vec![3]);
    assert_eq!(catalog.main_artists, vec![0]);
}

fn mapped_catalog() -> ArtistCatalog {
    let mut catalog = ArtistCatalog {
        artists: Vec::new(),
        main_artists: Vec::new(),
        support_artists: Vec::new(),
        releases: vec![
            release(&["Ann"], &[], &[&["Ann"], &["Ben"]]),
            release(&["Ben"], &[], &[&["Ben"], &["Ben"]]),
            release(&["Cy"], &["Ann"], &[]),
        ],
    };
    catalog.map_artists();
    catalog
}

#[test]
fn most_featured_artist_counts_releases_then_tracks() {
    let catalog = mapped_catalog();
    let names: Vec<&str> = catalog.artists.iter().map(|a| a.name.as_str()).collect();
    assert_eq!(names, vec!["Ann", "Ben", "Cy"]);
    // Ann, Ben and Cy each lead one release; Ben is on three tracks, Ann on one.
    assert_eq!(catalog.most_featured_artist(), Some(1));
}

#[test]
fn most_featured_artist_prefers_the_first_of_equals() {
    let mut catalog = ArtistCatalog {
        artists: Vec::new(),
        main_artists: Vec::new(),
        support_artists: Vec::new(),
        releases: vec![release(&["Ann", "Ben"], &[], &[])],
    };
    catalog.map_artists();
    assert_eq!(catalog.most_featured_artist(), Some(0));
    let empty = ArtistCatalog { artists: Vec::new(), main_artists: Vec::new(), support_artists: Vec::new(), releases: Vec::new() };
    assert_eq!(empty.most_featured_artist(), None);
}

#[test]
fn artists_only_on_unlisted_releases_are_unlisted() {
    let mut catalog = mapped_catalog();
    catalog.artists.push(KnownArtist { name: String::from("Nobody"), aliases: Vec::new(), releases: Vec::new() });
    // Ann is credited on releases 0 and 2, Ben on 1, Cy on 2.
    assert_eq!(catalog.unlisted_artists(&vec![false, true, true]), vec![false, true, true, false]);
    assert_eq!(catalog.unlisted_artists(&vec![true, true, true]), vec![true, true, true, false]);
}

#[test]
fn public_releases_skip_unlisted_ones() {
    assert_eq!(public_releases(&vec![false, true, false, true]), vec![0, 2]);
    assert!(public_releases(&Vec::new()).is_empty());
}

fn tracks_with(artists: &[&[usize]]) -> ReleaseArtists {
    ReleaseArtists {
        main_artists_to_map: Vec::new(),
        support_artists_to_map: Vec::new(),
        main_artists: Vec::new(),
        support_artists: Vec::new(),
        tracks: artists
            .iter()
            .map(|ids| TrackArtists { artists_to_map: Vec::new(), artists: ids.to_vec() })
            .collect(),
    }
}

#[test]
fn track_artists_vary_where_neighbours_differ() {
    assert!(!tracks_with(&[&[0, 1], &[0, 1], &[0, 1]]).varying_track_artists());
    assert!(tracks_with(&[&[0, 1], &[0, 1], &[0]]).varying_track_artists());
    assert!(tracks_with(&[&[0], &[0, 1]]).varying_track_artists());
    assert!(tracks_with(&[&[0, 1], &[0, 2]]).varying_track_artists());
    assert!(tracks_with(&[&[0], &[0], &[3]]).varying_track_artists());
    assert!(tracks_with(&[&[0], &[]]).varying_track_artists());
    assert!(!tracks_with(&[&[2]]).varying_track_artists());
    assert!(!tracks_with(&[]).varying_track_artists());
}

fn known(name: &str) -> KnownArtist {
    KnownArtist { name: String::from(name), aliases: Vec::new(), releases: Vec::new() }
}

#[test]
fn featured_artists_in_label_mode() {
    let catalog = ArtistCatalog {
        artists: vec![known("Zoe"), known("Bob"), known("Ann"), known("Carl"), known("Eve")],
        main_artists: vec![0, 1, 4],
        support_artists: vec![2, 1, 3, 2],
        releases: Vec::new(),
    };
    let external = vec![false, false, false, true, true];
    let featured = catalog.featured_artists(&external, true);
    let names: Vec<&str> = featured.iter().map(|&a| catalog.artists[a].name.as_str()).collect();
    assert_eq!(names, vec!["Ann", "Bob", "Zoe"]);
    let featured = catalog.featured_artists(&external, false);
    let names: Vec<&str> = featured.iter().map(|&a| catalog.artists[a].name.as_str()).collect();
    assert_eq!(names, vec!["Bob", "Zoe"]);
    let none = catalog.featured_artists(&vec![true; 5], true);
    assert!(none.is_empty());
}
