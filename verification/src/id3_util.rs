use vstd::prelude::*;

use crate::audio_meta::{spec_trim_and_reject_empty, trim_and_reject_empty};
use crate::text::{lemma_trim_avoids, opt_view, trim, views};

verus! {

/// The version of an ID3v2 tag.
#[derive(Clone, Copy, Debug, PartialEq, Eq, Structural)]
pub enum Id3Version {
    Id3v22,
    Id3v23,
    Id3v24,
}

/// The frames of an ID3 tag that metadata extraction reads, as the tag
/// reader gives them (`artists` holds the values of the artist frame).
#[derive(Clone, Debug)]
pub struct Id3Tag {
    pub version: Id3Version,
    pub album: Option<String>,
    pub album_artist: Option<String>,
    pub artists: Option<Vec<String>>,
    pub title: Option<String>,
}

/// Reads the text frames of an ID3 tag, working around the tag reader
/// returning '\0' in place of '/' in ID3v2.2 and ID3v2.3 tags.
pub struct Id3Util<'a> {
    tag: &'a Id3Tag,
}

/// `s` with every null character replaced by a slash.
pub open spec fn repair_nulls(s: Seq<char>) -> Seq<char> {
    s.map_values(|c: char| if c == '\0' { '/' } else { c })
}

/// A text frame's value, trimmed, with null characters first repaired to
/// slashes in ID3v2.2 and ID3v2.3 tags; `None` where nothing but white
/// space is left.
pub open spec fn spec_patched_trim_and_reject_empty(version: Id3Version, s: Seq<char>) -> Option<
    Seq<char>,
> {
    match version {
        Id3Version::Id3v24 => spec_trim_and_reject_empty(s),
        _ => spec_trim_and_reject_empty(repair_nulls(s)),
    }
}

/// The values of a frame with several values: each patched and trimmed,
/// those that are empty left out, the others in order.
pub open spec fn patched_values(version: Id3Version, values: Seq<Seq<char>>) -> Seq<Seq<char>>
    decreases values.len(),
{
    if values.len() == 0 {
        seq![]
    } else {
        let init = patched_values(version, values.drop_last());
        match spec_patched_trim_and_reject_empty(version, values.last()) {
            Some(v) => init.push(v),
            None => init,
        }
    }
}


/// What a frame that may be missing gives.
pub open spec fn patched_frame(version: Id3Version, frame: Option<Seq<char>>) -> Option<Seq<char>> {
    match frame {
        Some(s) => spec_patched_trim_and_reject_empty(version, s),
        None => None,
    }
}


/// `s` with every null character replaced by a slash.
fn repaired(s: &str) -> (r: String)
    ensures
        r@ == repair_nulls(s@),
{
    let n = s.unicode_len();
    let mut out = String::new();
    let mut start: usize = 0;
    let mut i: usize = 0;
    while i < n
        invariant
            n == s@.len(),
            start <= i <= n,
            out@ == repair_nulls(s@.take(start as int)),
            forall|j: int| start <= j < i ==> s@[j] != '\0',
        decreases n - i,
    {
        if s.get_char(i) == '\0' {
            let segment = s.substring_char(start, i);
            out.append(segment);
            out.append("/");
            proof {
                assert(repair_nulls(s@.take(i + 1)) =~= repair_nulls(s@.take(start as int))
                    + segment@ + "/"@) by {
                    reveal_strlit("/");
                }
            }
            start = i + 1;
        }
        i = i + 1;
    }
    let segment = s.substring_char(start, n);
    out.append(segment);
    assert(repair_nulls(s@) =~= repair_nulls(s@.take(start as int)) + segment@);
    out
}

impl<'a> Id3Util<'a> {
    pub closed spec fn spec_tag(&self) -> Id3Tag {
        *self.tag
    }

    pub fn new(tag: &'a Id3Tag) -> (util: Id3Util<'a>)
        ensures
            util.spec_tag() == *tag,
    {
        Id3Util { tag }
    }

    pub fn patched_trim_and_reject_empty(&self, string: &str) -> (r: Option<String>)
        ensures
            opt_view(r) == spec_patched_trim_and_reject_empty(self.spec_tag().version, string@),
    {
        match self.tag.version {
            Id3Version::Id3v22 | Id3Version::Id3v23 => {
                let repaired_string = repaired(string);
                trim_and_reject_empty(repaired_string.as_str())
            },
            Id3Version::Id3v24 => trim_and_reject_empty(string),
        }
    }

    pub fn album(&self) -> (album: Option<String>)
        ensures
            opt_view(album) == patched_frame(self.spec_tag().version, opt_view(self.spec_tag().album)),
    {
        match &self.tag.album {
            Some(album) => self.patched_trim_and_reject_empty(album.as_str()),
            None => None,
        }
    }

    pub fn album_artists(&self) -> (album_artists: Vec<String>)
        ensures
            views(album_artists@) == match patched_frame(
                self.spec_tag().version,
                opt_view(self.spec_tag().album_artist),
            ) {
                Some(a) => seq![a],
                None => Seq::<Seq<char>>::empty(),
            },
    {
        let mut album_artists: Vec<String> = Vec::new();
        if let Some(album_artist) = &self.tag.album_artist {
            if let Some(album_artist) = self.patched_trim_and_reject_empty(album_artist.as_str()) {
                album_artists.push(album_artist);
            }
        }
        assert(views(album_artists@) =~= match patched_frame(
            self.spec_tag().version,
            opt_view(self.spec_tag().album_artist),
        ) {
            Some(a) => seq![a],
            None => Seq::<Seq<char>>::empty(),
        });
        album_artists
    }

    pub fn artists(&self) -> (artists: Vec<String>)
        ensures
            views(artists@) == match self.spec_tag().artists {
                Some(values) => patched_values(self.spec_tag().version, views(values@)),
                None => Seq::<Seq<char>>::empty(),
            },
    {
        let mut artists: Vec<String> = Vec::new();
        match &self.tag.artists {
            Some(values) => {
                let ghost version = self.spec_tag().version;
                let mut i: usize = 0;
                assert(views(values@.take(0)) =~= Seq::<Seq<char>>::empty());
                while i < values.len()
                    invariant
                        i <= values@.len(),
                        version == self.spec_tag().version,
                        views(artists@) == patched_values(version, views(values@.take(i as int))),
                    decreases values@.len() - i,
                {
                    let patched = self.patched_trim_and_reject_empty(values[i].as_str());
                    proof {
                        assert(views(values@.take(i + 1)).drop_last() =~= views(
                            values@.take(i as int),
                        ));
                    }
                    if let Some(artist) = patched {
                        artists.push(artist);
                    }
                    proof {
                        assert(views(artists@) =~= patched_values(
                            version,
                            views(values@.take(i + 1)),
                        ));
                    }
                    i = i + 1;
                }
                assert(values@.take(values@.len() as int) =~= values@);
            },
            None => {
                assert(views(artists@) =~= Seq::<Seq<char>>::empty());
            },
        }
        artists
    }

    pub fn title(&self) -> (title: Option<String>)
        ensures
            opt_view(title) == patched_frame(self.spec_tag().version, opt_view(self.spec_tag().title)),
    {
        match &self.tag.title {
            Some(title) => self.patched_trim_and_reject_empty(title.as_str()),
            None => None,
        }
    }
}

/// In ID3v2.2 and ID3v2.3 tags, the values read hold no null character:
/// each one the reader returned stands repaired to a slash.
pub proof fn lemma_repaired_values_hold_no_nulls(version: Id3Version, s: Seq<char>)
    requires
        version != Id3Version::Id3v24,
    ensures
        spec_patched_trim_and_reject_empty(version, s) matches Some(v) ==> forall|i: int|
            0 <= i < v.len() ==> v[i] != '\0',
{
    lemma_trim_avoids(repair_nulls(s), '\0');
}

/// Without null characters, a value reads the same in every version.
pub proof fn lemma_values_without_nulls_read_alike(version: Id3Version, s: Seq<char>)
    requires
        forall|i: int| 0 <= i < s.len() ==> s[i] != '\0',
    ensures
        spec_patched_trim_and_reject_empty(version, s) == spec_patched_trim_and_reject_empty(
            Id3Version::Id3v24,
            s,
        ),
{
    assert(repair_nulls(s) =~= s);
}

} // verus!
