//! M3U playlists of the site's releases (see
//! https://en.wikipedia.org/wiki/M3U): for a release, for all public
//! releases of an artist, and for all public releases of the catalog.

use vstd::prelude::*;

use crate::audio_format::{spec_asset_dirname, spec_family, spec_family_extension, AudioFormat};
use crate::text::{decimal_string, join, lemma_join_push, opt_view, push_decimal, push_joined_strings, views};

verus! {

pub const M3U_PLAYLIST_FILENAME: &'static str = "playlist.m3u";

/// The characters that URL encoding leaves as they are: ASCII letters and
/// digits, `-`, `.`, `_` and `~`.
pub open spec fn is_url_unreserved(c: char) -> bool {
    ||| ('0' <= c && c <= '9')
    ||| ('A' <= c && c <= 'Z')
    ||| ('a' <= c && c <= 'z')
    ||| c == '-'
    ||| c == '.'
    ||| c == '_'
    ||| c == '~'
}

/// The upper case hexadecimal digit for `d` (below 16).
pub open spec fn hex_digit(d: nat) -> char {
    if d < 10 {
        ('0' as int + d) as char
    } else {
        ('A' as int + d - 10) as char
    }
}

/// The bytes of the UTF-8 encoding of `c`.
pub open spec fn utf8_bytes(c: char) -> Seq<nat> {
    let cp = c as nat;
    if cp < 0x80 {
        seq![cp]
    } else if cp < 0x800 {
        seq![0xC0 + cp / 64, 0x80 + cp % 64]
    } else if cp < 0x10000 {
        seq![0xE0 + cp / 4096, 0x80 + (cp / 64) % 64, 0x80 + cp % 64]
    } else {
        seq![0xF0 + cp / 262144, 0x80 + (cp / 4096) % 64, 0x80 + (cp / 64) % 64, 0x80 + cp % 64]
    }
}

/// Each byte written as `%` and two upper case hexadecimal digits.
pub open spec fn percent_encoded(bytes: Seq<nat>) -> Seq<char>
    decreases bytes.len(),
{
    if bytes.len() == 0 {
        seq![]
    } else {
        percent_encoded(bytes.drop_last()) + seq!['%', hex_digit(bytes.last() / 16), hex_digit(bytes.last() % 16)]
    }
}

/// `s` URL encoded: every character but the unreserved ones is replaced by
/// its UTF-8 bytes, percent encoded.
pub open spec fn url_encoded(s: Seq<char>) -> Seq<char>
    decreases s.len(),
{
    if s.len() == 0 {
        seq![]
    } else {
        url_encoded(s.drop_last()) + if is_url_unreserved(s.last()) {
            seq![s.last()]
        } else {
            percent_encoded(utf8_bytes(s.last()))
        }
    }
}

/// `urlencoding::encode`, which percent-encodes every byte of the UTF-8
/// encoding of `data` except ASCII letters, digits, `-`, `.`, `_` and `~`,
/// with upper case hexadecimal digits.
#[verifier::external_body]
fn url_encode(data: &str) -> (encoded: String)
    ensures
        encoded@ == url_encoded(data@),
{
    urlencoding::encode(data).into_owned()
}

/// The path, below the site's root, of a track's file in a streaming
/// format: the release's directory, the track's number, the format's
/// directory, the track's hash, and the file's name, URL encoded.
pub open spec fn spec_track_file_path(
    release_slug: Seq<char>,
    track_number: nat,
    format: AudioFormat,
    track_hash: Seq<char>,
    asset_basename: Seq<char>,
) -> Seq<char> {
    release_slug + "/"@ + decimal_string(track_number) + "/"@ + spec_asset_dirname(format) + "/"@ + track_hash + "/"@
        + url_encoded(asset_basename + spec_family_extension(spec_family(format)))
}

/// The path, below the site's root, of a track's file in a streaming
/// format.
pub fn track_file_path(
    release_slug: &str,
    track_number: usize,
    format: AudioFormat,
    track_hash: &str,
    asset_basename: &str,
) -> (path: String)
    ensures
        path@ == spec_track_file_path(release_slug@, track_number as nat, format, track_hash@, asset_basename@),
{
    let mut file_name = String::new();
    file_name.append(asset_basename);
    file_name.append(format.extension());
    let encoded = url_encode(file_name.as_str());
    let mut path = String::new();
    path.append(release_slug);
    path.append("/");
    push_decimal(&mut path, track_number as u64);
    path.append("/");
    path.append(format.asset_dirname());
    path.append("/");
    path.append(track_hash);
    path.append("/");
    path.append(encoded.as_str());
    path
}

/// The path, below the site's root, of an image file: in `dir` where
/// there is one, and with the image's hash as query where there is one,
/// so that browsers fetch it anew when it changes.
pub open spec fn spec_image_path(dir: Option<Seq<char>>, file_name: Seq<char>, hash: Option<Seq<char>>) -> Seq<char> {
    (match dir {
        Some(d) => d + "/"@,
        None => seq![],
    }) + file_name + match hash {
        Some(h) => "?"@ + h,
        None => seq![],
    }
}

/// The path, below the site's root, of an image file.
pub fn image_path(dir: Option<&str>, file_name: &str, hash: Option<&str>) -> (path: String)
    ensures
        path@ == spec_image_path(
            match dir {
                Some(d) => Some(d@),
                None => None,
            },
            file_name@,
            match hash {
                Some(h) => Some(h@),
                None => None,
            },
        ),
{
    let mut path = String::new();
    match dir {
        Some(d) => {
            path.append(d);
            path.append("/");
        },
        None => {},
    }
    path.append(file_name);
    match hash {
        Some(h) => {
            path.append("?");
            path.append(h);
        },
        None => {},
    }
    path
}

/// A track as a playlist lists it.
pub struct PlaylistTrack {
    /// The names of the track's artists.
    pub artists: Vec<String>,
    /// The track's number as the release's track numbering writes it;
    /// empty where the numbering writes none.
    pub number: String,
    pub title: String,
    /// The track's duration in whole seconds.
    pub duration_seconds: u64,
    /// The URL of the track's file in its primary streaming format.
    pub file_url: String,
}

/// A release as a playlist lists it.
pub struct PlaylistRelease {
    pub title: String,
    /// The URL of the release's cover image (or procedural cover).
    pub cover_url: String,
    pub tracks: Vec<PlaylistTrack>,
}

/// The title under which a playlist lists a track: its artists, a dash,
/// and its number (where there is one) and title.
pub open spec fn spec_track_title(t: PlaylistTrack) -> Seq<char> {
    join(views(t.artists@), ", "@) + " \u{2013} "@ + if t.number@.len() == 0 {
        t.title@
    } else {
        t.number@ + " "@ + t.title@
    }
}

/// A track's two lines: its duration and title, then its file's URL.
pub open spec fn track_entry(t: PlaylistTrack) -> Seq<char> {
    "#EXTINF:"@ + decimal_string(t.duration_seconds as nat) + ", "@ + spec_track_title(t) + "\n"@ + t.file_url@
}

/// The entries of tracks, one per track, in order.
pub open spec fn track_entries(tracks: Seq<PlaylistTrack>) -> Seq<Seq<char>> {
    tracks.map_values(|t: PlaylistTrack| track_entry(t))
}

/// The entries of tracks, one after the other on lines of their own.
pub open spec fn spec_generate_tracks(tracks: Seq<PlaylistTrack>) -> Seq<char> {
    join(track_entries(tracks), "\n"@)
}

/// A release's part of a playlist: its cover, its title as album, then
/// its tracks.
pub open spec fn release_section(r: PlaylistRelease) -> Seq<char> {
    "#EXTIMG:"@ + r.cover_url@ + "\n#EXTALB:"@ + r.title@ + "\n"@ + spec_generate_tracks(r.tracks@) + "\n"@
}

/// The head of every playlist: the extended M3U marker, the encoding and
/// the playlist's name.
pub open spec fn playlist_header(name: Seq<char>) -> Seq<char> {
    "#EXTM3U\n#EXTENC:UTF-8\n#PLAYLIST:"@ + name + "\n"@
}

/// The playlist of a single release, named after it.
pub open spec fn spec_release_playlist(r: PlaylistRelease) -> Seq<char> {
    playlist_header(r.title@) + release_section(r)
}

/// A playlist of several releases: its head, a line with its image (empty
/// where there is none), then the releases' parts, one after the other.
pub open spec fn spec_releases_playlist(
    name: Seq<char>,
    image_url: Option<Seq<char>>,
    releases: Seq<PlaylistRelease>,
) -> Seq<char> {
    playlist_header(name) + (match image_url {
        Some(u) => "#EXTIMG:"@ + u,
        None => seq![],
    }) + "\n"@ + join(releases.map_values(|r: PlaylistRelease| release_section(r)), "\n"@) + "\n"@
}

fn push_track_entry(out: &mut String, track: &PlaylistTrack)
    ensures
        final(out)@ == old(out)@ + track_entry(*track),
{
    let ghost start = out@;
    out.append("#EXTINF:");
    push_decimal(out, track.duration_seconds);
    out.append(", ");
    push_joined_strings(out, &track.artists, ", ");
    out.append(" \u{2013} ");
    if !track.number.as_str().is_empty() {
        out.append(track.number.as_str());
        out.append(" ");
    }
    out.append(track.title.as_str());
    out.append("\n");
    out.append(track.file_url.as_str());
    assert(out@ =~= start + track_entry(*track));
}

fn push_tracks(out: &mut String, tracks: &Vec<PlaylistTrack>)
    ensures
        final(out)@ == old(out)@ + spec_generate_tracks(tracks@),
{
    let ghost start = out@;
    let mut i: usize = 0;
    assert(track_entries(tracks@.take(0)) =~= Seq::<Seq<char>>::empty());
    while i < tracks.len()
        invariant
            i <= tracks@.len(),
            out@ == start + join(track_entries(tracks@.take(i as int)), "\n"@),
        decreases tracks@.len() - i,
    {
        proof {
            assert(track_entries(tracks@.take(i + 1)) =~= track_entries(tracks@.take(i as int)).push(
                track_entry(tracks@[i as int]),
            ));
            lemma_join_push(track_entries(tracks@.take(i as int)), "\n"@, track_entry(tracks@[i as int]));
        }
        if i > 0 {
            out.append("\n");
        }
        push_track_entry(out, &tracks[i]);
        i = i + 1;
    }
    assert(tracks@.take(tracks@.len() as int) =~= tracks@);
}

/// The entries of a release's tracks, one after the other, each with its
/// duration and title on one line and its file's URL on the next.
pub fn generate_tracks(tracks: &Vec<PlaylistTrack>) -> (text: String)
    ensures
        text@ == spec_generate_tracks(tracks@),
{
    let mut text = String::new();
    push_tracks(&mut text, tracks);
    text
}

fn push_release_section(out: &mut String, release: &PlaylistRelease)
    ensures
        final(out)@ == old(out)@ + release_section(*release),
{
    let ghost start = out@;
    out.append("#EXTIMG:");
    out.append(release.cover_url.as_str());
    out.append("\n#EXTALB:");
    out.append(release.title.as_str());
    out.append("\n");
    push_tracks(out, &release.tracks);
    out.append("\n");
    assert(out@ =~= start + release_section(*release));
}

fn push_header(out: &mut String, name: &str)
    ensures
        final(out)@ == old(out)@ + playlist_header(name@),
{
    let ghost start = out@;
    out.append("#EXTM3U\n#EXTENC:UTF-8\n#PLAYLIST:");
    out.append(name);
    out.append("\n");
    assert(out@ =~= start + playlist_header(name@));
}

/// The complete playlist of a release.
pub fn generate_for_release(release: &PlaylistRelease) -> (playlist: String)
    ensures
        playlist@ == spec_release_playlist(*release),
{
    let mut playlist = String::new();
    push_header(&mut playlist, release.title.as_str());
    push_release_section(&mut playlist, release);
    assert(playlist@ =~= spec_release_playlist(*release));
    playlist
}

fn releases_playlist(name: &str, image_url: &Option<String>, releases: &Vec<PlaylistRelease>) -> (playlist: String)
    ensures
        playlist@ == spec_releases_playlist(name@, opt_view(*image_url), releases@),
{
    let mut playlist = String::new();
    push_header(&mut playlist, name);
    match image_url {
        Some(url) => {
            playlist.append("#EXTIMG:");
            playlist.append(url.as_str());
        },
        None => {},
    }
    playlist.append("\n");
    let ghost start = playlist@;
    let ghost sections = releases@.map_values(|r: PlaylistRelease| release_section(r));
    let mut i: usize = 0;
    assert(sections.take(0) =~= Seq::<Seq<char>>::empty());
    while i < releases.len()
        invariant
            i <= releases@.len(),
            sections == releases@.map_values(|r: PlaylistRelease| release_section(r)),
            playlist@ == start + join(sections.take(i as int), "\n"@),
        decreases releases@.len() - i,
    {
        proof {
            assert(sections.take(i + 1) =~= sections.take(i as int).push(release_section(releases@[i as int])));
            lemma_join_push(sections.take(i as int), "\n"@, release_section(releases@[i as int]));
        }
        if i > 0 {
            playlist.append("\n");
        }
        push_release_section(&mut playlist, &releases[i]);
        i = i + 1;
    }
    assert(sections.take(sections.len() as int) =~= sections);
    playlist.append("\n");
    assert(playlist@ =~= spec_releases_playlist(name@, opt_view(*image_url), releases@));
    playlist
}

/// The complete playlist of an artist's public releases, named after the
/// artist, with the artist's image where there is one.
pub fn generate_for_artist(
    artist_name: &str,
    artist_image_url: &Option<String>,
    releases: &Vec<PlaylistRelease>,
) -> (playlist: String)
    ensures
        playlist@ == spec_releases_playlist(artist_name@, opt_view(*artist_image_url), releases@),
{
    releases_playlist(artist_name, artist_image_url, releases)
}

/// The complete playlist of the catalog's public releases, named after
/// the catalog, with its home image where there is one.
pub fn generate_for_catalog(
    catalog_title: &str,
    home_image_url: &Option<String>,
    releases: &Vec<PlaylistRelease>,
) -> (playlist: String)
    ensures
        playlist@ == spec_releases_playlist(catalog_title@, opt_view(*home_image_url), releases@),
{
    releases_playlist(catalog_title, home_image_url, releases)
}

} // verus!
