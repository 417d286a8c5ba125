use vstd::prelude::*;

use crate::fair_dir::{lowercase, to_lowercase};
use crate::text::{decimal_string, join, opt_view, push_decimal, push_joined_strings, str_equal, views};

verus! {

/// The characters that a sanitized filename never holds: those that are
/// illegal in filenames on some platform, and control characters.
pub open spec fn is_unsafe_filename_char(c: char) -> bool {
    ||| c == '/'
    ||| c == '?'
    ||| c == '<'
    ||| c == '>'
    ||| c == '\\'
    ||| c == ':'
    ||| c == '*'
    ||| c == '|'
    ||| c == '"'
    ||| ('\u{0}' <= c && c <= '\u{1f}')
    ||| ('\u{80}' <= c && c <= '\u{9f}')
}

/// `s` holds no character that is unsafe in a filename.
pub open spec fn is_filename_safe(s: Seq<char>) -> bool {
    forall|i: int| 0 <= i < s.len() ==> !is_unsafe_filename_char(#[trigger] s[i])
}

/// `a` is what is left of `b` after some of its characters are removed.
pub open spec fn is_subsequence(a: Seq<char>, b: Seq<char>) -> bool
    decreases b.len(),
{
    if a.len() == 0 {
        true
    } else if b.len() == 0 {
        false
    } else if a.last() == b.last() {
        is_subsequence(a.drop_last(), b.drop_last())
    } else {
        is_subsequence(a, b.drop_last())
    }
}

/// Whether `s` starts like a name that Windows reserves for devices
/// ("con", "prn", "aux", "nul", "com1", "lpt1", ..., in any case): its
/// first three characters spell one of those stems.
pub open spec fn starts_like_reserved_device(s: Seq<char>) -> bool {
    s.len() >= 3 && {
        let a = s[0];
        let b = s[1];
        let c = s[2];
        ||| (a == 'c' || a == 'C') && (b == 'o' || b == 'O') && (c == 'n' || c == 'N')
        ||| (a == 'p' || a == 'P') && (b == 'r' || b == 'R') && (c == 'n' || c == 'N')
        ||| (a == 'a' || a == 'A') && (b == 'u' || b == 'U') && (c == 'x' || c == 'X')
        ||| (a == 'n' || a == 'N') && (b == 'u' || b == 'U') && (c == 'l' || c == 'L')
        ||| (a == 'c' || a == 'C') && (b == 'o' || b == 'O') && (c == 'm' || c == 'M')
        ||| (a == 'l' || a == 'L') && (b == 'p' || b == 'P') && (c == 't' || c == 'T')
    }
}

/// A name that sanitizing leaves as it is on every platform: no unsafe or
/// control character, no trailing dot or space (so also not all dots), not
/// starting like a reserved device name, and at most 63 characters (so at
/// most 252 bytes, below the limit of 255).
pub open spec fn is_plain_filename(s: Seq<char>) -> bool {
    &&& is_filename_safe(s)
    &&& s.len() <= 63
    &&& s.len() > 0 ==> s.last() != '.' && s.last() != ' '
    &&& !starts_like_reserved_device(s)
}

/// `sanitize_filename::sanitize`: removes the characters that are illegal
/// in filenames and control characters, an all-dots name, on Windows also
/// reserved device names and trailing dots and spaces, and truncates to
/// 255 bytes. What it removes depends on the platform, so the contract
/// states what holds on every platform: the result is what is left of the
/// name after removing characters, it holds no unsafe character, and a
/// plain name (see `is_plain_filename`), which no step touches, comes back
/// unchanged.
#[verifier::external_body]
pub(crate) fn sanitize(name: &str) -> (sanitized: String)
    ensures
        is_subsequence(sanitized@, name@),
        is_filename_safe(sanitized@),
        is_plain_filename(name@) ==> sanitized@ == name@,
{
    sanitize_filename::sanitize(name)
}

/// The prefix of a basename that names the artists: their names joined
/// with ", " and followed by " - ", or nothing where there are none.
pub open spec fn artists_prefix(artists: Seq<Seq<char>>) -> Seq<char> {
    if artists.len() == 0 {
        seq![]
    } else {
        join(artists, ", "@) + " - "@
    }
}

/// `n` in decimal, padded with a leading zero to two digits.
pub open spec fn two_digits(n: nat) -> Seq<char> {
    if n < 10 {
        "0"@ + decimal_string(n)
    } else {
        decimal_string(n)
    }
}

/// The basename of a release's download files, from the sanitized names of
/// its main artists and its sanitized title.
pub open spec fn spec_release_basename(artists: Seq<Seq<char>>, title: Seq<char>) -> Seq<char> {
    artists_prefix(artists) + title
}

/// The basename of a track's files, from its number, the sanitized names of
/// its artists and its sanitized title.
pub open spec fn spec_track_basename(track_number: nat, artists: Seq<Seq<char>>, title: Seq<char>) -> Seq<
    char,
> {
    two_digits(track_number) + " "@ + artists_prefix(artists) + title
}

fn push_artists_prefix(out: &mut String, artists: &Vec<String>)
    ensures
        final(out)@ == old(out)@ + artists_prefix(views(artists@)),
{
    if artists.len() > 0 {
        push_joined_strings(out, artists, ", ");
        out.append(" - ");
    }
}

/// Composes a release's asset basename from its sanitized parts.
pub fn release_basename(sanitized_artists: &Vec<String>, sanitized_title: &str) -> (basename: String)
    ensures
        basename@ == spec_release_basename(views(sanitized_artists@), sanitized_title@),
{
    let mut basename = String::new();
    push_artists_prefix(&mut basename, sanitized_artists);
    basename.append(sanitized_title);
    basename
}

/// Composes a track's asset basename from its number and sanitized parts.
pub fn track_basename(track_number: usize, sanitized_artists: &Vec<String>, sanitized_title: &str) -> (basename: String)
    ensures
        basename@ == spec_track_basename(track_number as nat, views(sanitized_artists@), sanitized_title@),
{
    let mut basename = String::new();
    if track_number < 10 {
        basename.append("0");
    }
    push_decimal(&mut basename, track_number as u64);
    basename.append(" ");
    push_artists_prefix(&mut basename, sanitized_artists);
    basename.append(sanitized_title);
    basename
}

/// Sanitizes each name.
fn sanitize_all(names: &Vec<String>) -> (sanitized: Vec<String>)
    ensures
        sanitized@.len() == names@.len(),
        forall|i: int|
            0 <= i < names@.len() ==> is_subsequence(#[trigger] sanitized@[i]@, names@[i]@)
                && is_filename_safe(sanitized@[i]@),
        forall|i: int| 0 <= i < names@.len() && is_plain_filename(names@[i]@) ==> #[trigger] sanitized@[i]@ == names@[i]@,
{
    let mut sanitized: Vec<String> = Vec::new();
    let mut i: usize = 0;
    while i < names.len()
        invariant
            i <= names@.len(),
            sanitized@.len() == i,
            forall|k: int|
                0 <= k < i ==> is_subsequence(#[trigger] sanitized@[k]@, names@[k]@) && is_filename_safe(
                    sanitized@[k]@,
                ),
            forall|k: int| 0 <= k < i && is_plain_filename(names@[k]@) ==> #[trigger] sanitized@[k]@ == names@[k]@,
        decreases names@.len() - i,
    {
        sanitized.push(sanitize(names[i].as_str()));
        i = i + 1;
    }
    sanitized
}

/// `parts` are the sanitized forms of `names`, one each.
pub open spec fn sanitized_forms(parts: Seq<Seq<char>>, names: Seq<Seq<char>>) -> bool {
    &&& parts.len() == names.len()
    &&& forall|i: int|
        0 <= i < names.len() ==> is_subsequence(#[trigger] parts[i], names[i]) && is_filename_safe(parts[i])
}

/// The basename of a release's download files: the sanitized names of its
/// main artists, joined with ", " and followed by " - " (where it has any),
/// then its sanitized title.
pub fn release_asset_basename(main_artist_names: &Vec<String>, title: &str) -> (basename: String)
    ensures
        exists|artists: Seq<Seq<char>>, t: Seq<char>|
            sanitized_forms(artists, views(main_artist_names@)) && is_subsequence(t, title@)
                && is_filename_safe(t) && basename@ == #[trigger] spec_release_basename(artists, t),
        is_plain_filename(title@) && (forall|i: int|
            0 <= i < main_artist_names@.len() ==> is_plain_filename(#[trigger] main_artist_names@[i]@))
            ==> basename@ == spec_release_basename(views(main_artist_names@), title@),
{
    let artists = sanitize_all(main_artist_names);
    let sanitized_title = sanitize(title);
    let basename = release_basename(&artists, sanitized_title.as_str());
    assert(sanitized_forms(views(artists@), views(main_artist_names@)));
    proof {
        if forall|i: int| 0 <= i < main_artist_names@.len() ==> is_plain_filename(#[trigger] main_artist_names@[i]@) {
            assert(views(artists@) =~= views(main_artist_names@));
        }
    }
    assert(basename@ == spec_release_basename(views(artists@), sanitized_title@));
    basename
}

/// The basename of a track's files: its number padded to two digits, a
/// space, the sanitized names of its artists, joined with ", " and followed
/// by " - " (where it has any), then its sanitized title.
pub fn track_asset_basename(track_number: usize, artist_names: &Vec<String>, title: &str) -> (basename: String)
    ensures
        exists|artists: Seq<Seq<char>>, t: Seq<char>|
            sanitized_forms(artists, views(artist_names@)) && is_subsequence(t, title@)
                && is_filename_safe(t) && basename@ == #[trigger] spec_track_basename(
                track_number as nat,
                artists,
                t,
            ),
        is_plain_filename(title@) && (forall|i: int|
            0 <= i < artist_names@.len() ==> is_plain_filename(#[trigger] artist_names@[i]@))
            ==> basename@ == spec_track_basename(track_number as nat, views(artist_names@), title@),
{
    let artists = sanitize_all(artist_names);
    let sanitized_title = sanitize(title);
    let basename = track_basename(track_number, &artists, sanitized_title.as_str());
    assert(sanitized_forms(views(artists@), views(artist_names@)));
    proof {
        if forall|i: int| 0 <= i < artist_names@.len() ==> is_plain_filename(#[trigger] artist_names@[i]@) {
            assert(views(artists@) =~= views(artist_names@));
        }
    }
    assert(basename@ == spec_track_basename(track_number as nat, views(artists@), sanitized_title@));
    basename
}

/// How likely an image is the intended release cover, by its lowercased
/// file stem: "cover" first, then "front", "album", and any other name.
pub open spec fn spec_cover_priority(lower_stem: Seq<char>) -> nat {
    if lower_stem == "cover"@ {
        1
    } else if lower_stem == "front"@ {
        2
    } else if lower_stem == "album"@ {
        3
    } else {
        4
    }
}

pub fn cover_priority(lower_stem: &str) -> (priority: u8)
    ensures
        priority == spec_cover_priority(lower_stem@),
{
    if str_equal(lower_stem, "cover") {
        1
    } else if str_equal(lower_stem, "front") {
        2
    } else if str_equal(lower_stem, "album") {
        3
    } else {
        4
    }
}

/// Image `i` is the best cover candidate: none has a better priority, and
/// none before it has the same.
pub open spec fn is_best_cover(lower_stems: Seq<Seq<char>>, i: int) -> bool {
    &&& 0 <= i < lower_stems.len()
    &&& forall|j: int|
        0 <= j < lower_stems.len() ==> spec_cover_priority(lower_stems[i]) <= spec_cover_priority(
            #[trigger] lower_stems[j],
        )
    &&& forall|j: int|
        0 <= j < i ==> spec_cover_priority(lower_stems[i]) < spec_cover_priority(#[trigger] lower_stems[j])
}

/// The index of the best cover candidate among images given by their
/// lowercased file stems, if there are any.
pub fn pick_best_cover_by_lower_stem(lower_stems: &Vec<String>) -> (best: Option<usize>)
    ensures
        best is None <==> lower_stems@.len() == 0,
        best matches Some(i) ==> is_best_cover(views(lower_stems@), i as int),
{
    let ghost stems = views(lower_stems@);
    let mut best: Option<(u8, usize)> = None;
    let mut i: usize = 0;
    while i < lower_stems.len()
        invariant
            i <= lower_stems@.len(),
            stems == views(lower_stems@),
            best is None <==> i == 0,
            best matches Some((p, b)) ==> {
                &&& b < i
                &&& p == spec_cover_priority(stems[b as int])
                &&& forall|j: int| 0 <= j < i ==> p <= spec_cover_priority(#[trigger] stems[j])
                &&& forall|j: int| 0 <= j < b ==> p < spec_cover_priority(#[trigger] stems[j])
            },
        decreases lower_stems@.len() - i,
    {
        let priority = cover_priority(lower_stems[i].as_str());
        assert(stems[i as int] == lower_stems@[i as int]@);
        match best {
            Some((p, _)) => {
                if priority < p {
                    best = Some((priority, i));
                }
            },
            None => {
                best = Some((priority, i));
            },
        }
        i = i + 1;
    }
    match best {
        Some((_, b)) => Some(b),
        None => None,
    }
}

/// The lowercased forms of `stems`.
pub open spec fn lowercased(stems: Seq<Seq<char>>) -> Seq<Seq<char>> {
    stems.map_values(|s: Seq<char>| lowercase(s))
}

/// The index of the image most likely to be the intended release cover,
/// among images given by their file stems: the first one named "cover",
/// else "front", else "album" (in any case), else the first image.
pub fn pick_best_cover_image(file_stems: &Vec<String>) -> (best: Option<usize>)
    ensures
        best is None <==> file_stems@.len() == 0,
        best matches Some(i) ==> is_best_cover(lowercased(views(file_stems@)), i as int),
{
    let mut lower_stems: Vec<String> = Vec::new();
    let mut i: usize = 0;
    while i < file_stems.len()
        invariant
            i <= file_stems@.len(),
            views(lower_stems@) == lowercased(views(file_stems@.take(i as int))),
        decreases file_stems@.len() - i,
    {
        let ghost before = lower_stems@;
        let lower = to_lowercase(file_stems[i].as_str());
        lower_stems.push(lower);
        assert(views(lower_stems@) =~= views(before).push(lower@));
        assert(lowercased(views(file_stems@.take(i + 1))) =~= lowercased(views(file_stems@.take(i as int))).push(
            lowercase(file_stems@[i as int]@),
        ));
        i = i + 1;
    }
    assert(file_stems@.take(file_stems@.len() as int) =~= file_stems@);
    pick_best_cover_by_lower_stem(&lower_stems)
}

/// The catalog's title: the one set in the manifest, else (unless the
/// catalog is in label mode) the name of the catalog's artist, else
/// "Faircamp".
pub open spec fn spec_catalog_title(title: Option<Seq<char>>, label_mode: bool, artist_name: Option<Seq<char>>) -> Seq<char> {
    match title {
        Some(t) => t,
        None => if !label_mode && artist_name is Some {
            artist_name->0
        } else {
            "Faircamp"@
        },
    }
}


pub fn catalog_title(title: &Option<String>, label_mode: bool, artist_name: &Option<String>) -> (t: String)
    ensures
        t@ == spec_catalog_title(opt_view(*title), label_mode, opt_view(*artist_name)),
{
    if let Some(catalog_title) = title {
        return catalog_title.clone();
    }
    if !label_mode {
        if let Some(name) = artist_name {
            return name.clone();
        }
    }
    String::from_str("Faircamp")
}

} // verus!
