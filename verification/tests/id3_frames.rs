use faircamp::id3_util::{Id3Tag, Id3Util, Id3Version};

fn tag(version: Id3Version) -> Id3Tag {
    Id3Tag {
        version,
        album: Some(String::from("  Split\0Single  ")),
        album_artist: Some(String::from("AC\0DC")),
        artists: Some(vec![String::from(" One "), String::from("   "), String::from("Two\0Three")]),
        title: Some(String::from("\t")),
    }
}

#[test]
fn id3v23_frames_have_slashes_repaired_and_are_trimmed() {
    let tag = tag(Id3Version::Id3v23);
    let util = Id3Util::new(&tag);
    assert_eq!(util.album(), Some(String::from("Split/Single")));
    assert_eq!(util.album_artists(), vec![String::from("AC/DC")]);
    assert_eq!(util.artists(), vec![String::from("One"), String::from("Two/Three")]);
    assert_eq!(util.title(), None);
}

#[test]
fn id3v22_frames_have_slashes_repaired() {
    let tag = tag(Id3Version::Id3v22);
    let util = Id3Util::new(&tag);
    assert_eq!(util.patched_trim_and_reject_empty("a\0b\0"), Some(String::from("a/b/")));
}

#[test]
fn id3v24_frames_keep_null_characters() {
    let tag = tag(Id3Version::Id3v24);
    let util = Id3Util::new(&tag);
    assert_eq!(util.album(), Some(String::from("Split\0Single")));
    assert_eq!(util.album_artists(), vec![String::from("AC\0DC")]);
    assert_eq!(util.artists(), vec![String::from("One"), String::from("Two\0Three")]);
}

#[test]
fn missing_frames_give_nothing() {
    let tag = Id3Tag {
        version: Id3Version::Id3v24,
        album: None,
        album_artist: None,
        artists: None,
        title: None,
    };
    let util = Id3Util::new(&tag);
    assert_eq!(util.album(), None);
    assert!(util.album_artists().is_empty());
    assert!(util.artists().is_empty());
    assert_eq!(util.title(), None);
}

#[test]
fn blank_album_artist_gives_no_album_artist() {
    let tag = Id3Tag {
        version: Id3Version::Id3v23,
        album: None,
        album_artist: Some(String::from(" \n ")),
        artists: Some(Vec::new()),
        title: Some(String::from(" Song ")),
    };
    let util = Id3Util::new(&tag);
    assert!(util.album_artists().is_empty());
    assert!(util.artists().is_empty());
    assert_eq!(util.title(), Some(String::from("Song")));
}
