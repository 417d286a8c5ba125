use faircamp::audio_format::AudioFormat;
use faircamp::m3u::{
    generate_for_artist, generate_for_catalog, generate_for_release, generate_tracks, image_path,
    track_file_path, PlaylistRelease, PlaylistTrack, M3U_PLAYLIST_FILENAME,
};

fn track(artists: &[&str], number: &str, title: &str, duration_seconds: u64, file_url: &str) -> PlaylistTrack {
    PlaylistTrack {
        artists: artists.iter().map(|a| a.to_string()).collect(),
        number: number.to_string(),
        title: title.to_string(),
        duration_seconds,
        file_url: file_url.to_string(),
    }
}

fn release(title: &str, cover_url: &str, tracks: Vec<PlaylistTrack>) -> PlaylistRelease {
    PlaylistRelease { title: title.to_string(), cover_url: cover_url.to_string(), tracks }
}

#[test]
fn playlist_filename() {
    assert_eq!(M3U_PLAYLIST_FILENAME, "playlist.m3u");
}

#[test]
fn track_file_paths_are_url_encoded() {
    assert_eq!(
        track_file_path("first-light", 3, AudioFormat::Opus96Kbps, "a1B2", "03 Alice - Dawn"),
        "first-light/3/opus-96/a1B2/03%20Alice%20-%20Dawn.opus"
    );
    assert_eq!(
        track_file_path("r", 12, AudioFormat::Mp3VbrV0, "h", "12 Ünïcode & ~co_"),
        "r/12/mp3-v0/h/12%20%C3%9Cn%C3%AFcode%20%26%20~co_.mp3"
    );
    assert_eq!(
        track_file_path("r", 1, AudioFormat::Flac, "h", "Song\u{2013}\u{1F3B5}"),
        "r/1/flac/h/Song%E2%80%93%F0%9F%8E%B5.flac"
    );
    assert_eq!(track_file_path("r", 1, AudioFormat::OggVorbis, "h", "plain"), "r/1/ogg/h/plain.ogg");
}

#[test]
fn image_paths() {
    assert_eq!(image_path(Some("release"), "cover_480.jpg", Some("XyZ")), "release/cover_480.jpg?XyZ");
    assert_eq!(image_path(Some("release"), "cover_480.png", None), "release/cover_480.png");
    assert_eq!(image_path(None, "home_image.jpg", Some("abc")), "home_image.jpg?abc");
    assert_eq!(image_path(None, "x.jpg", None), "x.jpg");
}

#[test]
fn track_entries() {
    let tracks = vec![
        track(&["Alice", "Bob"], "01", "Dawn", 185, "https://example.com/r/1/t.opus"),
        track(&["Alice"], "", "Dusk", 7, "https://example.com/r/2/u.opus"),
    ];
    assert_eq!(
        generate_tracks(&tracks),
        "#EXTINF:185, Alice, Bob \u{2013} 01 Dawn\nhttps://example.com/r/1/t.opus\n\
         #EXTINF:7, Alice \u{2013} Dusk\nhttps://example.com/r/2/u.opus"
    );
    assert_eq!(generate_tracks(&Vec::new()), "");
}

#[test]
fn release_playlist() {
    let r = release(
        "First Light",
        "https://example.com/first-light/cover.jpg?h",
        vec![track(&["Alice"], "1", "Dawn", 60, "https://example.com/first-light/1/a.mp3")],
    );
    assert_eq!(
        generate_for_release(&r),
        "#EXTM3U\n#EXTENC:UTF-8\n#PLAYLIST:First Light\n\
         #EXTIMG:https://example.com/first-light/cover.jpg?h\n#EXTALB:First Light\n\
         #EXTINF:60, Alice \u{2013} 1 Dawn\nhttps://example.com/first-light/1/a.mp3\n"
    );
}

#[test]
fn artist_playlist_with_image() {
    let releases = vec![
        release("A", "u/a.jpg", vec![track(&["X"], "", "One", 1, "u/a/1")]),
        release("B", "u/b.jpg", vec![track(&["X"], "", "Two", 2, "u/b/1"), track(&["Y"], "", "Three", 3, "u/b/2")]),
    ];
    assert_eq!(
        generate_for_artist("X", &Some(String::from("u/x.jpg")), &releases),
        "#EXTM3U\n#EXTENC:UTF-8\n#PLAYLIST:X\n#EXTIMG:u/x.jpg\n\
         #EXTIMG:u/a.jpg\n#EXTALB:A\n#EXTINF:1, X \u{2013} One\nu/a/1\n\
         \n\
         #EXTIMG:u/b.jpg\n#EXTALB:B\n#EXTINF:2, X \u{2013} Two\nu/b/1\n#EXTINF:3, Y \u{2013} Three\nu/b/2\n\n"
    );
}

#[test]
fn catalog_playlist_without_image() {
    let releases = vec![release("A", "u/a.jpg", vec![track(&["X"], "", "One", 1, "u/a/1")])];
    assert_eq!(
        generate_for_catalog("My Catalog", &None, &releases),
        "#EXTM3U\n#EXTENC:UTF-8\n#PLAYLIST:My Catalog\n\n\
         #EXTIMG:u/a.jpg\n#EXTALB:A\n#EXTINF:1, X \u{2013} One\nu/a/1\n\n"
    );
    assert_eq!(generate_for_catalog("Empty", &None, &Vec::new()), "#EXTM3U\n#EXTENC:UTF-8\n#PLAYLIST:Empty\n\n\n");
}
