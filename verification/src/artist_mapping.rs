use vstd::prelude::*;

use crate::manifest::{lemma_lex_le_refl, lemma_lex_le_total, lemma_lex_le_trans, lex_le, str_le};
use crate::text::{str_equal, views};

verus! {

/// An artist of the catalog, as far as mapping names to artists goes: its
/// name, the other names it goes by, and the releases (by index) it is
/// credited on.
#[derive(Clone, Debug)]
pub struct KnownArtist {
    pub name: String,
    pub aliases: Vec<String>,
    pub releases: Vec<usize>,
}

/// The artist names read from a track's metadata that still have to be
/// mapped to artists, and the artists (by index) mapped so far.
#[derive(Clone, Debug)]
pub struct TrackArtists {
    pub artists_to_map: Vec<String>,
    pub artists: Vec<usize>,
}

/// The artist names of a release that still have to be mapped to artists,
/// the artists (by index) mapped so far, and its tracks.
#[derive(Clone, Debug)]
pub struct ReleaseArtists {
    pub main_artists_to_map: Vec<String>,
    pub support_artists_to_map: Vec<String>,
    pub main_artists: Vec<usize>,
    pub support_artists: Vec<usize>,
    pub tracks: Vec<TrackArtists>,
}

/// The artists of a catalog, the catalog's main and support artists (by
/// index), and its releases.
#[derive(Clone, Debug)]
pub struct ArtistCatalog {
    pub artists: Vec<KnownArtist>,
    pub main_artists: Vec<usize>,
    pub support_artists: Vec<usize>,
    pub releases: Vec<ReleaseArtists>,
}

#[verifier::ext_equal]
pub struct ArtistView {
    pub name: Seq<char>,
    pub aliases: Seq<Seq<char>>,
    pub releases: Seq<usize>,
}

#[verifier::ext_equal]
pub struct TrackView {
    pub artists_to_map: Seq<Seq<char>>,
    pub artists: Seq<usize>,
}

#[verifier::ext_equal]
pub struct ReleaseView {
    pub main_artists_to_map: Seq<Seq<char>>,
    pub support_artists_to_map: Seq<Seq<char>>,
    pub main_artists: Seq<usize>,
    pub support_artists: Seq<usize>,
    pub tracks: Seq<TrackView>,
}

/// What all releases share while their artists are mapped: the catalog's
/// artists and its main and support artists.
#[verifier::ext_equal]
pub struct SharedView {
    pub artists: Seq<ArtistView>,
    pub main_artists: Seq<usize>,
    pub support_artists: Seq<usize>,
}

#[verifier::ext_equal]
pub struct CatalogView {
    pub shared: SharedView,
    pub releases: Seq<ReleaseView>,
}

impl View for KnownArtist {
    type V = ArtistView;

    open spec fn view(&self) -> ArtistView {
        ArtistView { name: self.name@, aliases: views(self.aliases@), releases: self.releases@ }
    }
}

impl View for TrackArtists {
    type V = TrackView;

    open spec fn view(&self) -> TrackView {
        TrackView { artists_to_map: views(self.artists_to_map@), artists: self.artists@ }
    }
}

pub open spec fn track_views(tracks: Seq<TrackArtists>) -> Seq<TrackView> {
    tracks.map_values(|t: TrackArtists| t@)
}

impl View for ReleaseArtists {
    type V = ReleaseView;

    open spec fn view(&self) -> ReleaseView {
        ReleaseView {
            main_artists_to_map: views(self.main_artists_to_map@),
            support_artists_to_map: views(self.support_artists_to_map@),
            main_artists: self.main_artists@,
            support_artists: self.support_artists@,
            tracks: track_views(self.tracks@),
        }
    }
}

pub open spec fn artist_views(artists: Seq<KnownArtist>) -> Seq<ArtistView> {
    artists.map_values(|a: KnownArtist| a@)
}

pub open spec fn release_views(releases: Seq<ReleaseArtists>) -> Seq<ReleaseView> {
    releases.map_values(|r: ReleaseArtists| r@)
}

impl View for ArtistCatalog {
    type V = CatalogView;

    open spec fn view(&self) -> CatalogView {
        CatalogView {
            shared: SharedView {
                artists: artist_views(self.artists@),
                main_artists: self.main_artists@,
                support_artists: self.support_artists@,
            },
            releases: release_views(self.releases@),
        }
    }
}

/// An artist answers to a name that is its own name or one of its aliases.
pub open spec fn answers_to(artist: ArtistView, name: Seq<char>) -> bool {
    artist.name == name || artist.aliases.contains(name)
}

/// Whether one of the first `k` artists answers to `name`.
pub open spec fn any_answers(artists: Seq<ArtistView>, name: Seq<char>, k: int) -> bool {
    exists|a: int| 0 <= a < k && answers_to(#[trigger] artists[a], name)
}

/// An artist created for a name that no artist answers to.
pub open spec fn automatic_artist(name: Seq<char>, releases: Seq<usize>) -> ArtistView {
    ArtistView { name, aliases: seq![], releases }
}

pub open spec fn credit_release(artists: Seq<ArtistView>, a: int, r: usize) -> Seq<ArtistView> {
    artists.update(a, ArtistView { releases: artists[a].releases.push(r), ..artists[a] })
}

/// The main and support artists (by index) credited on a release so far.
#[verifier::ext_equal]
pub struct Credits {
    pub main: Seq<usize>,
    pub support: Seq<usize>,
}

/// Artist `a` considered as a main artist named `name` of release `r`:
/// where it answers to the name, it becomes a main artist of the release
/// (and is credited on it) and of the catalog, unless it already is.
pub open spec fn main_candidate(sh: SharedView, cr: Credits, r: usize, name: Seq<char>, a: int) -> (
    SharedView,
    Credits,
) {
    if answers_to(sh.artists[a], name) {
        let (sh1, cr1) = if !cr.main.contains(a as usize) {
            (
                SharedView { artists: credit_release(sh.artists, a, r), ..sh },
                Credits { main: cr.main.push(a as usize), ..cr },
            )
        } else {
            (sh, cr)
        };
        if !sh1.main_artists.contains(a as usize) {
            (SharedView { main_artists: sh1.main_artists.push(a as usize), ..sh1 }, cr1)
        } else {
            (sh1, cr1)
        }
    } else {
        (sh, cr)
    }
}

/// Artist `a` considered as a support artist named `name` of release `r`:
/// where it answers to the name, it becomes a support artist of the
/// release (and is credited on it) unless it already is a main or support
/// artist there, and likewise a support artist of the catalog.
pub open spec fn support_candidate(sh: SharedView, cr: Credits, r: usize, name: Seq<char>, a: int) -> (
    SharedView,
    Credits,
) {
    if answers_to(sh.artists[a], name) {
        let (sh1, cr1) = if !cr.main.contains(a as usize) && !cr.support.contains(a as usize) {
            (
                SharedView { artists: credit_release(sh.artists, a, r), ..sh },
                Credits { support: cr.support.push(a as usize), ..cr },
            )
        } else {
            (sh, cr)
        };
        if !sh1.main_artists.contains(a as usize) && !sh1.support_artists.contains(a as usize) {
            (SharedView { support_artists: sh1.support_artists.push(a as usize), ..sh1 }, cr1)
        } else {
            (sh1, cr1)
        }
    } else {
        (sh, cr)
    }
}

pub open spec fn candidate(sh: SharedView, cr: Credits, r: usize, name: Seq<char>, support: bool, a: int) -> (
    SharedView,
    Credits,
) {
    if support {
        support_candidate(sh, cr, r, name, a)
    } else {
        main_candidate(sh, cr, r, name, a)
    }
}

/// The first `k` artists considered for a release's artist name.
pub open spec fn candidates_upto(
    sh: SharedView,
    cr: Credits,
    r: usize,
    name: Seq<char>,
    support: bool,
    k: int,
) -> (SharedView, Credits)
    decreases k,
{
    if k <= 0 {
        (sh, cr)
    } else {
        let (sh1, cr1) = candidates_upto(sh, cr, r, name, support, k - 1);
        candidate(sh1, cr1, r, name, support, k - 1)
    }
}

/// A release's main (or support) artist name mapped: to every artist that
/// answers to it, or else to a new artist of that name.
pub open spec fn map_release_name(sh: SharedView, cr: Credits, r: usize, name: Seq<char>, support: bool) -> (
    SharedView,
    Credits,
) {
    let n = sh.artists.len();
    if any_answers(sh.artists, name, n as int) {
        candidates_upto(sh, cr, r, name, support, n as int)
    } else {
        let artists = sh.artists.push(automatic_artist(name, seq![r]));
        if support {
            (
                SharedView { artists, support_artists: sh.support_artists.push(n as usize), ..sh },
                Credits { support: cr.support.push(n as usize), ..cr },
            )
        } else {
            (
                SharedView { artists, main_artists: sh.main_artists.push(n as usize), ..sh },
                Credits { main: cr.main.push(n as usize), ..cr },
            )
        }
    }
}

/// The first `k` of `names` mapped, in order.
pub open spec fn map_release_names(
    sh: SharedView,
    cr: Credits,
    r: usize,
    names: Seq<Seq<char>>,
    support: bool,
    k: int,
) -> (SharedView, Credits)
    decreases k,
{
    if k <= 0 {
        (sh, cr)
    } else {
        let (sh1, cr1) = map_release_names(sh, cr, r, names, support, k - 1);
        map_release_name(sh1, cr1, r, names[k - 1], support)
    }
}

/// Artist `a` considered for a track's artist name: where it answers to the
/// name, it becomes an artist of the track unless it already is.
pub open spec fn track_candidate(artists: Seq<ArtistView>, track: Seq<usize>, name: Seq<char>, a: int) -> Seq<
    usize,
> {
    if answers_to(artists[a], name) && !track.contains(a as usize) {
        track.push(a as usize)
    } else {
        track
    }
}

pub open spec fn track_candidates_upto(
    artists: Seq<ArtistView>,
    track: Seq<usize>,
    name: Seq<char>,
    k: int,
) -> Seq<usize>
    decreases k,
{
    if k <= 0 {
        track
    } else {
        track_candidate(artists, track_candidates_upto(artists, track, name, k - 1), name, k - 1)
    }
}

/// A track's artist name mapped: to every artist that answers to it, or
/// else to a new artist of that name (which the catalog credits on no
/// release and lists neither as main nor as support artist).
pub open spec fn map_track_name(artists: Seq<ArtistView>, track: Seq<usize>, name: Seq<char>) -> (
    Seq<ArtistView>,
    Seq<usize>,
) {
    let n = artists.len();
    if any_answers(artists, name, n as int) {
        (artists, track_candidates_upto(artists, track, name, n as int))
    } else {
        (artists.push(automatic_artist(name, seq![])), track.push(n as usize))
    }
}

pub open spec fn map_track_names(
    artists: Seq<ArtistView>,
    track: Seq<usize>,
    names: Seq<Seq<char>>,
    k: int,
) -> (Seq<ArtistView>, Seq<usize>)
    decreases k,
{
    if k <= 0 {
        (artists, track)
    } else {
        let (artists1, track1) = map_track_names(artists, track, names, k - 1);
        map_track_name(artists1, track1, names[k - 1])
    }
}

/// The first `k` tracks of a release mapped, in order; the names of each
/// are used up.
pub open spec fn map_tracks(artists: Seq<ArtistView>, tracks: Seq<TrackView>, k: int) -> (
    Seq<ArtistView>,
    Seq<TrackView>,
)
    decreases k,
{
    if k <= 0 {
        (artists, tracks)
    } else {
        let (artists1, tracks1) = map_tracks(artists, tracks, k - 1);
        let t = tracks1[k - 1];
        let (artists2, mapped) = map_track_names(
            artists1,
            t.artists,
            t.artists_to_map,
            t.artists_to_map.len() as int,
        );
        (artists2, tracks1.update(k - 1, TrackView { artists_to_map: seq![], artists: mapped }))
    }
}

/// Release `r` mapped: its main artist names, then its support artist
/// names, then the artist names of its tracks; all names are used up.
pub open spec fn map_release(sh: SharedView, rel: ReleaseView, r: usize) -> (SharedView, ReleaseView) {
    let cr0 = Credits { main: rel.main_artists, support: rel.support_artists };
    let (sh1, cr1) = map_release_names(
        sh,
        cr0,
        r,
        rel.main_artists_to_map,
        false,
        rel.main_artists_to_map.len() as int,
    );
    let (sh2, cr2) = map_release_names(
        sh1,
        cr1,
        r,
        rel.support_artists_to_map,
        true,
        rel.support_artists_to_map.len() as int,
    );
    let (artists3, tracks3) = map_tracks(sh2.artists, rel.tracks, rel.tracks.len() as int);
    (
        SharedView { artists: artists3, ..sh2 },
        ReleaseView {
            main_artists_to_map: seq![],
            support_artists_to_map: seq![],
            main_artists: cr2.main,
            support_artists: cr2.support,
            tracks: tracks3,
        },
    )
}

/// The first `k` releases of a catalog mapped, in order.
pub open spec fn map_releases(c: CatalogView, k: int) -> CatalogView
    decreases k,
{
    if k <= 0 {
        c
    } else {
        let c1 = map_releases(c, k - 1);
        let (sh, rel) = map_release(c1.shared, c1.releases[k - 1], (k - 1) as usize);
        CatalogView { shared: sh, releases: c1.releases.update(k - 1, rel) }
    }
}

pub open spec fn shared_view(artists: Seq<KnownArtist>, main: Seq<usize>, support: Seq<usize>) -> SharedView {
    SharedView { artists: artist_views(artists), main_artists: main, support_artists: support }
}

/// The first `n` artists keep their names and aliases.
pub open spec fn same_names(before: Seq<ArtistView>, after: Seq<ArtistView>, n: int) -> bool {
    forall|i: int|
        0 <= i < n ==> (#[trigger] after[i]).name == before[i].name && after[i].aliases == before[i].aliases
}

fn contains_index(v: &Vec<usize>, a: usize) -> (b: bool)
    ensures
        b == v@.contains(a),
{
    let mut i: usize = 0;
    while i < v.len()
        invariant
            i <= v@.len(),
            forall|j: int| 0 <= j < i ==> v@[j] != a,
        decreases v@.len() - i,
    {
        if v[i] == a {
            assert(v@[i as int] == a);
            return true;
        }
        i = i + 1;
    }
    false
}

fn answers(artist: &KnownArtist, name: &str) -> (b: bool)
    ensures
        b == answers_to(artist@, name@),
{
    if str_equal(artist.name.as_str(), name) {
        return true;
    }
    let mut i: usize = 0;
    while i < artist.aliases.len()
        invariant
            i <= artist.aliases@.len(),
            artist.name@ != name@,
            forall|j: int| 0 <= j < i ==> views(artist.aliases@)[j] != name@,
        decreases artist.aliases@.len() - i,
    {
        if str_equal(artist.aliases[i].as_str(), name) {
            assert(views(artist.aliases@)[i as int] == name@);
            return true;
        }
        i = i + 1;
    }
    false
}

/// Credits artist `a` on release `r`.
fn credit(artists: &mut Vec<KnownArtist>, a: usize, r: usize)
    requires
        a < old(artists)@.len(),
    ensures
        artist_views(final(artists)@) == credit_release(artist_views(old(artists)@), a as int, r),
        final(artists)@.len() == old(artists)@.len(),
{
    artists[a].releases.push(r);
    assert(artist_views(artists@) =~= credit_release(artist_views(old(artists)@), a as int, r));
}

/// Considers artist `a` for the main (or support) artist name `name` of
/// release `r`.
fn consider(
    artists: &mut Vec<KnownArtist>,
    catalog_main: &mut Vec<usize>,
    catalog_support: &mut Vec<usize>,
    release_main: &mut Vec<usize>,
    release_support: &mut Vec<usize>,
    r: usize,
    name: &str,
    support: bool,
    a: usize,
) -> (answered: bool)
    requires
        a < old(artists)@.len(),
    ensures
        answered == answers_to(artist_views(old(artists)@)[a as int], name@),
        (
            shared_view(final(artists)@, final(catalog_main)@, final(catalog_support)@),
            Credits { main: final(release_main)@, support: final(release_support)@ },
        ) == candidate(
            shared_view(old(artists)@, old(catalog_main)@, old(catalog_support)@),
            Credits { main: old(release_main)@, support: old(release_support)@ },
            r,
            name@,
            support,
            a as int,
        ),
        final(artists)@.len() == old(artists)@.len(),
        same_names(artist_views(old(artists)@), artist_views(final(artists)@), old(artists)@.len() as int),
{
    let ghost sh0 = shared_view(artists@, catalog_main@, catalog_support@);
    let ghost cr0 = Credits { main: release_main@, support: release_support@ };
    if !answers(&artists[a], name) {
        assert(same_names(artist_views(old(artists)@), artist_views(artists@), artists@.len() as int));
        return false;
    }
    if support {
        if !contains_index(release_main, a) && !contains_index(release_support, a) {
            credit(artists, a, r);
            release_support.push(a);
        }
        if !contains_index(catalog_main, a) && !contains_index(catalog_support, a) {
            catalog_support.push(a);
        }
    } else {
        if !contains_index(release_main, a) {
            credit(artists, a, r);
            release_main.push(a);
        }
        if !contains_index(catalog_main, a) {
            catalog_main.push(a);
        }
    }
    assert(shared_view(artists@, catalog_main@, catalog_support@) =~= candidate(sh0, cr0, r, name@, support, a as int).0);
    assert(Credits { main: release_main@, support: release_support@ } =~= candidate(sh0, cr0, r, name@, support, a as int).1);
    assert(same_names(artist_views(old(artists)@), artist_views(artists@), artists@.len() as int));
    true
}

proof fn lemma_any_answers_step(artists: Seq<ArtistView>, name: Seq<char>, k: int)
    requires
        0 <= k < artists.len(),
    ensures
        any_answers(artists, name, k + 1) == (any_answers(artists, name, k) || answers_to(artists[k], name)),
{
    if answers_to(artists[k], name) {
        assert(any_answers(artists, name, k + 1));
    }
    if any_answers(artists, name, k + 1) && !answers_to(artists[k], name) {
        let a = choose|a: int| 0 <= a < k + 1 && answers_to(#[trigger] artists[a], name);
        assert(any_answers(artists, name, k));
    }
}

proof fn lemma_no_answers_no_change(sh: SharedView, cr: Credits, r: usize, name: Seq<char>, support: bool, k: int)
    requires
        0 <= k <= sh.artists.len(),
        !any_answers(sh.artists, name, k),
    ensures
        candidates_upto(sh, cr, r, name, support, k) == (sh, cr),
    decreases k,
{
    if k > 0 {
        assert(!answers_to(sh.artists[k - 1], name));
        assert(!any_answers(sh.artists, name, k - 1));
        lemma_no_answers_no_change(sh, cr, r, name, support, k - 1);
    }
}

/// A new artist of the given name, credited on the given releases.
fn automatic(name: &str, releases: Vec<usize>) -> (artist: KnownArtist)
    ensures
        artist@ == automatic_artist(name@, releases@),
{
    let artist = KnownArtist { name: String::from_str(name), aliases: Vec::new(), releases };
    assert(artist@ =~= automatic_artist(name@, releases@));
    artist
}

/// Maps a main (or support) artist name of release `r`.
fn map_name_for_release(
    artists: &mut Vec<KnownArtist>,
    catalog_main: &mut Vec<usize>,
    catalog_support: &mut Vec<usize>,
    release_main: &mut Vec<usize>,
    release_support: &mut Vec<usize>,
    r: usize,
    name: &str,
    support: bool,
)
    ensures
        (
            shared_view(final(artists)@, final(catalog_main)@, final(catalog_support)@),
            Credits { main: final(release_main)@, support: final(release_support)@ },
        ) == map_release_name(
            shared_view(old(artists)@, old(catalog_main)@, old(catalog_support)@),
            Credits { main: old(release_main)@, support: old(release_support)@ },
            r,
            name@,
            support,
        ),
{
    let ghost sh0 = shared_view(artists@, catalog_main@, catalog_support@);
    let ghost cr0 = Credits { main: release_main@, support: release_support@ };
    let n = artists.len();
    let mut found = false;
    let mut a: usize = 0;
    while a < n
        invariant
            a <= n,
            n == artists@.len(),
            n == sh0.artists.len(),
            (
                shared_view(artists@, catalog_main@, catalog_support@),
                Credits { main: release_main@, support: release_support@ },
            ) == candidates_upto(sh0, cr0, r, name@, support, a as int),
            found == any_answers(sh0.artists, name@, a as int),
            same_names(sh0.artists, artist_views(artists@), n as int),
        decreases n - a,
    {
        let answered = consider(
            artists,
            catalog_main,
            catalog_support,
            release_main,
            release_support,
            r,
            name,
            support,
            a,
        );
        proof {
            lemma_any_answers_step(sh0.artists, name@, a as int);
            assert(answers_to(sh0.artists[a as int], name@) == answered);
        }
        found = found || answered;
        a = a + 1;
    }
    if !found {
        proof {
            lemma_no_answers_no_change(sh0, cr0, r, name@, support, n as int);
        }
        let mut releases: Vec<usize> = Vec::new();
        releases.push(r);
        let artist = automatic(name, releases);
        assert(releases@ =~= seq![r]);
        artists.push(artist);
        if support {
            catalog_support.push(n);
            release_support.push(n);
        } else {
            catalog_main.push(n);
            release_main.push(n);
        }
        assert(artist_views(artists@) =~= sh0.artists.push(automatic_artist(name@, seq![r])));
    }
}

fn map_names_for_release(
    artists: &mut Vec<KnownArtist>,
    catalog_main: &mut Vec<usize>,
    catalog_support: &mut Vec<usize>,
    release_main: &mut Vec<usize>,
    release_support: &mut Vec<usize>,
    r: usize,
    names: &Vec<String>,
    support: bool,
)
    ensures
        (
            shared_view(final(artists)@, final(catalog_main)@, final(catalog_support)@),
            Credits { main: final(release_main)@, support: final(release_support)@ },
        ) == map_release_names(
            shared_view(old(artists)@, old(catalog_main)@, old(catalog_support)@),
            Credits { main: old(release_main)@, support: old(release_support)@ },
            r,
            views(names@),
            support,
            names@.len() as int,
        ),
{
    let ghost sh0 = shared_view(artists@, catalog_main@, catalog_support@);
    let ghost cr0 = Credits { main: release_main@, support: release_support@ };
    let mut k: usize = 0;
    while k < names.len()
        invariant
            k <= names@.len(),
            (
                shared_view(artists@, catalog_main@, catalog_support@),
                Credits { main: release_main@, support: release_support@ },
            ) == map_release_names(sh0, cr0, r, views(names@), support, k as int),
        decreases names@.len() - k,
    {
        map_name_for_release(
            artists,
            catalog_main,
            catalog_support,
            release_main,
            release_support,
            r,
            names[k].as_str(),
            support,
        );
        assert(views(names@)[k as int] == names@[k as int]@);
        k = k + 1;
    }
}

fn consider_for_track(artists: &Vec<KnownArtist>, track: &mut Vec<usize>, name: &str, a: usize) -> (answered: bool)
    requires
        a < artists@.len(),
    ensures
        answered == answers_to(artist_views(artists@)[a as int], name@),
        final(track)@ == track_candidate(artist_views(artists@), old(track)@, name@, a as int),
{
    let answered = answers(&artists[a], name);
    if answered && !contains_index(track, a) {
        track.push(a);
    }
    answered
}

proof fn lemma_no_answers_track_unchanged(artists: Seq<ArtistView>, track: Seq<usize>, name: Seq<char>, k: int)
    requires
        0 <= k <= artists.len(),
        !any_answers(artists, name, k),
    ensures
        track_candidates_upto(artists, track, name, k) == track,
    decreases k,
{
    if k > 0 {
        assert(!answers_to(artists[k - 1], name));
        assert(!any_answers(artists, name, k - 1));
        lemma_no_answers_track_unchanged(artists, track, name, k - 1);
    }
}

fn map_name_for_track(artists: &mut Vec<KnownArtist>, track: &mut Vec<usize>, name: &str)
    ensures
        (artist_views(final(artists)@), final(track)@) == map_track_name(
            artist_views(old(artists)@),
            old(track)@,
            name@,
        ),
{
    let ghost start = artist_views(artists@);
    let ghost track0 = track@;
    let n = artists.len();
    let mut found = false;
    let mut a: usize = 0;
    while a < n
        invariant
            a <= n,
            n == artists@.len(),
            artist_views(artists@) == start,
            track@ == track_candidates_upto(start, track0, name@, a as int),
            found == any_answers(start, name@, a as int),
        decreases n - a,
    {
        let answered = consider_for_track(artists, track, name, a);
        proof {
            lemma_any_answers_step(start, name@, a as int);
        }
        found = found || answered;
        a = a + 1;
    }
    if !found {
        proof {
            lemma_no_answers_track_unchanged(start, track0, name@, n as int);
        }
        let artist = automatic(name, Vec::new());
        artists.push(artist);
        track.push(n);
        assert(artist_views(artists@) =~= start.push(automatic_artist(name@, seq![])));
    }
}

fn map_names_for_track(artists: &mut Vec<KnownArtist>, track: &mut Vec<usize>, names: &Vec<String>)
    ensures
        (artist_views(final(artists)@), final(track)@) == map_track_names(
            artist_views(old(artists)@),
            old(track)@,
            views(names@),
            names@.len() as int,
        ),
{
    let ghost start = artist_views(artists@);
    let ghost track0 = track@;
    let mut k: usize = 0;
    while k < names.len()
        invariant
            k <= names@.len(),
            (artist_views(artists@), track@) == map_track_names(start, track0, views(names@), k as int),
        decreases names@.len() - k,
    {
        map_name_for_track(artists, track, names[k].as_str());
        assert(views(names@)[k as int] == names@[k as int]@);
        k = k + 1;
    }
}

proof fn lemma_map_tracks_frame(artists: Seq<ArtistView>, tracks: Seq<TrackView>, k: int)
    requires
        0 <= k <= tracks.len(),
    ensures
        map_tracks(artists, tracks, k).1.len() == tracks.len(),
        forall|j: int| k <= j < tracks.len() ==> #[trigger] map_tracks(artists, tracks, k).1[j] == tracks[j],
    decreases k,
{
    if k > 0 {
        lemma_map_tracks_frame(artists, tracks, k - 1);
    }
}

fn map_release_tracks(artists: &mut Vec<KnownArtist>, tracks: &mut Vec<TrackArtists>)
    ensures
        (artist_views(final(artists)@), track_views(final(tracks)@)) == map_tracks(
            artist_views(old(artists)@),
            track_views(old(tracks)@),
            old(tracks)@.len() as int,
        ),
{
    let ghost artists0 = artist_views(artists@);
    let ghost tracks0 = track_views(tracks@);
    let mut t: usize = 0;
    while t < tracks.len()
        invariant
            t <= tracks@.len(),
            tracks@.len() == tracks0.len(),
            (artist_views(artists@), track_views(tracks@)) == map_tracks(artists0, tracks0, t as int),
        decreases tracks@.len() - t,
    {
        proof {
            lemma_map_tracks_frame(artists0, tracks0, t as int);
        }
        let ghost before = track_views(tracks@);
        let ghost old_track = tracks@[t as int];
        assert(before[t as int] == old_track@);
        assert(before[t as int] == tracks0[t as int]);
        let mut names: Vec<String> = Vec::new();
        std::mem::swap(&mut names, &mut tracks[t].artists_to_map);
        assert(names@ == old_track.artists_to_map@);
        assert(views(names@) == tracks0[t as int].artists_to_map);
        let ghost mid = tracks@;
        assert(mid[t as int].artists@ == old_track.artists@);
        map_names_for_track(artists, &mut tracks[t].artists, &names);
        assert(tracks@.len() == before.len());
        assert forall|j: int| 0 <= j < tracks@.len() && j != t implies #[trigger] track_views(tracks@)[j] == before[j] by {
            assert(tracks@[j] == mid[j]);
        }
        assert(track_views(tracks@)[t as int] =~= TrackView { artists_to_map: seq![], artists: tracks@[t as int].artists@ });
        assert(track_views(tracks@) =~= before.update(
            t as int,
            TrackView { artists_to_map: seq![], artists: tracks@[t as int].artists@ },
        ));
        t = t + 1;
    }
}

/// Maps all artist names of release `r`.
fn map_release_artists(
    artists: &mut Vec<KnownArtist>,
    catalog_main: &mut Vec<usize>,
    catalog_support: &mut Vec<usize>,
    release: &mut ReleaseArtists,
    r: usize,
)
    ensures
        (shared_view(final(artists)@, final(catalog_main)@, final(catalog_support)@), final(release)@)
            == map_release(shared_view(old(artists)@, old(catalog_main)@, old(catalog_support)@), old(release)@, r),
{
    let mut main_names: Vec<String> = Vec::new();
    std::mem::swap(&mut main_names, &mut release.main_artists_to_map);
    let mut support_names: Vec<String> = Vec::new();
    std::mem::swap(&mut support_names, &mut release.support_artists_to_map);
    map_names_for_release(
        artists,
        catalog_main,
        catalog_support,
        &mut release.main_artists,
        &mut release.support_artists,
        r,
        &main_names,
        false,
    );
    map_names_for_release(
        artists,
        catalog_main,
        catalog_support,
        &mut release.main_artists,
        &mut release.support_artists,
        r,
        &support_names,
        true,
    );
    map_release_tracks(artists, &mut release.tracks);
    assert(release@ =~= map_release(
        shared_view(old(artists)@, old(catalog_main)@, old(catalog_support)@),
        old(release)@,
        r,
    ).1);
}

proof fn lemma_map_releases_frame(c: CatalogView, k: int)
    requires
        0 <= k <= c.releases.len(),
    ensures
        map_releases(c, k).releases.len() == c.releases.len(),
        forall|j: int| k <= j < c.releases.len() ==> #[trigger] map_releases(c, k).releases[j] == c.releases[j],
    decreases k,
{
    if k > 0 {
        lemma_map_releases_frame(c, k - 1);
    }
}

impl ArtistCatalog {
    /// Maps the artist names of all releases and tracks to the catalog's
    /// artists, release by release: each name goes to every artist that
    /// answers to it (by name or alias), or else to a new artist of that
    /// name. Main and support artists of releases become the catalog's
    /// main and support artists, and are credited on the release.
    pub fn map_artists(&mut self)
        ensures
            final(self)@ == map_releases(old(self)@, old(self)@.releases.len() as int),
    {
        let ghost c0 = self@;
        let mut r: usize = 0;
        while r < self.releases.len()
            invariant
                r <= self.releases@.len(),
                self.releases@.len() == c0.releases.len(),
                self@ == map_releases(c0, r as int),
            decreases self.releases@.len() - r,
        {
            proof {
                lemma_map_releases_frame(c0, r as int);
            }
            let ghost before = self@;
            map_release_artists(
                &mut self.artists,
                &mut self.main_artists,
                &mut self.support_artists,
                &mut self.releases[r],
                r,
            );
            assert(self.releases@.len() == before.releases.len());
            assert(release_views(self.releases@) =~= before.releases.update(r as int, self.releases@[r as int]@));
            assert(self@ =~= map_releases(c0, r + 1));
            r = r + 1;
        }
    }
}

/// All artist names of a release, and of its tracks, are used up.
pub open spec fn names_used_up(rel: ReleaseView) -> bool {
    &&& rel.main_artists_to_map.len() == 0
    &&& rel.support_artists_to_map.len() == 0
    &&& forall|t: int| 0 <= t < rel.tracks.len() ==> (#[trigger] rel.tracks[t]).artists_to_map.len() == 0
}

proof fn lemma_map_tracks_uses_up(artists: Seq<ArtistView>, tracks: Seq<TrackView>, k: int)
    requires
        0 <= k <= tracks.len(),
    ensures
        forall|t: int| 0 <= t < k ==> (#[trigger] map_tracks(artists, tracks, k).1[t]).artists_to_map.len() == 0,
    decreases k,
{
    if k > 0 {
        lemma_map_tracks_uses_up(artists, tracks, k - 1);
        lemma_map_tracks_frame(artists, tracks, k - 1);
    }
}

proof fn lemma_map_releases_uses_up(c: CatalogView, k: int)
    requires
        0 <= k <= c.releases.len(),
    ensures
        forall|r: int| 0 <= r < k ==> names_used_up(#[trigger] map_releases(c, k).releases[r]),
    decreases k,
{
    if k > 0 {
        lemma_map_releases_uses_up(c, k - 1);
        lemma_map_releases_frame(c, k - 1);
        let c1 = map_releases(c, k - 1);
        let rel = c1.releases[k - 1];
        let sh = c1.shared;
        let cr0 = Credits { main: rel.main_artists, support: rel.support_artists };
        let (sh1, cr1) = map_release_names(sh, cr0, (k - 1) as usize, rel.main_artists_to_map, false, rel.main_artists_to_map.len() as int);
        let (sh2, cr2) = map_release_names(sh1, cr1, (k - 1) as usize, rel.support_artists_to_map, true, rel.support_artists_to_map.len() as int);
        lemma_map_tracks_uses_up(sh2.artists, rel.tracks, rel.tracks.len() as int);
        lemma_map_tracks_frame(sh2.artists, rel.tracks, rel.tracks.len() as int);
    }
}

/// Mapping uses up every artist name of every release and track.
pub proof fn lemma_mapping_uses_up_all_names(c: CatalogView)
    ensures
        forall|r: int|
            0 <= r < c.releases.len() ==> names_used_up(
                #[trigger] map_releases(c, c.releases.len() as int).releases[r],
            ),
{
    lemma_map_releases_uses_up(c, c.releases.len() as int);
}

/// No artist occurs twice in `ids`, and each is one of the first `n`.
pub open spec fn good_ids(ids: Seq<usize>, n: int) -> bool {
    &&& forall|i: int, j: int| 0 <= i < j < ids.len() ==> ids[i] != ids[j]
    &&& forall|i: int| 0 <= i < ids.len() ==> (#[trigger] ids[i]) < n
}

pub open spec fn good_shared(sh: SharedView) -> bool {
    &&& good_ids(sh.main_artists, sh.artists.len() as int)
    &&& good_ids(sh.support_artists, sh.artists.len() as int)
}

pub open spec fn good_credits(cr: Credits, n: int) -> bool {
    good_ids(cr.main, n) && good_ids(cr.support, n)
}

pub open spec fn good_tracks(tracks: Seq<TrackView>, n: int) -> bool {
    forall|t: int| 0 <= t < tracks.len() ==> good_ids(#[trigger] tracks[t].artists, n)
}

pub open spec fn good_release(rel: ReleaseView, n: int) -> bool {
    &&& good_ids(rel.main_artists, n)
    &&& good_ids(rel.support_artists, n)
    &&& good_tracks(rel.tracks, n)
}

/// Every list of artists of the catalog, of its releases and of their
/// tracks names each artist at most once, and only artists of the catalog.
pub open spec fn good_catalog(c: CatalogView) -> bool {
    &&& good_shared(c.shared)
    &&& forall|r: int| 0 <= r < c.releases.len() ==> good_release(#[trigger] c.releases[r], c.shared.artists.len() as int)
}

proof fn lemma_good_ids_push(ids: Seq<usize>, n: int, m: int, a: usize)
    requires
        good_ids(ids, n),
        n <= m,
        a < m,
        !ids.contains(a),
    ensures
        good_ids(ids.push(a), m),
{
    assert forall|i: int, j: int| 0 <= i < j < ids.push(a).len() implies ids.push(a)[i] != ids.push(a)[j] by {
        if j == ids.len() {
            assert(ids[i] == ids.push(a)[i]);
        }
    }
}

proof fn lemma_good_ids_grow(ids: Seq<usize>, n: int, m: int)
    requires
        good_ids(ids, n),
        n <= m,
    ensures
        good_ids(ids, m),
{
}

proof fn lemma_candidate_good(sh: SharedView, cr: Credits, r: usize, name: Seq<char>, support: bool, a: int)
    requires
        0 <= a < sh.artists.len(),
        sh.artists.len() <= usize::MAX,
        good_shared(sh),
        good_credits(cr, sh.artists.len() as int),
    ensures
        ({
            let (sh1, cr1) = candidate(sh, cr, r, name, support, a);
            &&& sh1.artists.len() == sh.artists.len()
            &&& same_names(sh.artists, sh1.artists, sh.artists.len() as int)
            &&& good_shared(sh1)
            &&& good_credits(cr1, sh.artists.len() as int)
            &&& answers_to(sh.artists[a], name) ==> if support {
                cr1.main.contains(a as usize) || cr1.support.contains(a as usize)
            } else {
                cr1.main.contains(a as usize)
            }
            &&& forall|x: usize| cr.main.contains(x) ==> #[trigger] cr1.main.contains(x)
            &&& forall|x: usize| cr.support.contains(x) ==> #[trigger] cr1.support.contains(x)
        }),
{
    let n = sh.artists.len() as int;
    if answers_to(sh.artists[a], name) {
        if support {
            if !cr.main.contains(a as usize) && !cr.support.contains(a as usize) {
                lemma_good_ids_push(cr.support, n, n, a as usize);
                assert(cr.support.push(a as usize).contains(a as usize)) by {
                    assert(cr.support.push(a as usize)[cr.support.len() as int] == a as usize);
                }
            }
            if !sh.main_artists.contains(a as usize) && !sh.support_artists.contains(a as usize) {
                lemma_good_ids_push(sh.support_artists, n, n, a as usize);
            }
        } else {
            if !cr.main.contains(a as usize) {
                lemma_good_ids_push(cr.main, n, n, a as usize);
                assert(cr.main.push(a as usize)[cr.main.len() as int] == a as usize);
            }
            if !sh.main_artists.contains(a as usize) {
                lemma_good_ids_push(sh.main_artists, n, n, a as usize);
            }
        }
    }
    let (sh1, cr1) = candidate(sh, cr, r, name, support, a);
    assert forall|x: usize| cr.main.contains(x) implies #[trigger] cr1.main.contains(x) by {
        let i = choose|i: int| 0 <= i < cr.main.len() && cr.main[i] == x;
        assert(cr1.main[i] == x);
    }
    assert forall|x: usize| cr.support.contains(x) implies #[trigger] cr1.support.contains(x) by {
        let i = choose|i: int| 0 <= i < cr.support.len() && cr.support[i] == x;
        assert(cr1.support[i] == x);
    }
}

/// Artist `a` is credited on the release: as a main artist, or (for
/// support artist names) as a main or support artist.
pub open spec fn credited(cr: Credits, a: usize, support: bool) -> bool {
    if support {
        cr.main.contains(a) || cr.support.contains(a)
    } else {
        cr.main.contains(a)
    }
}

/// Every artist credited in `cr` stays credited in `cr1`.
pub open spec fn keeps_credits(cr: Credits, cr1: Credits) -> bool {
    &&& forall|x: usize| cr.main.contains(x) ==> #[trigger] cr1.main.contains(x)
    &&& forall|x: usize| cr.support.contains(x) ==> #[trigger] cr1.support.contains(x)
}

proof fn lemma_candidates_upto_good(sh: SharedView, cr: Credits, r: usize, name: Seq<char>, support: bool, k: int)
    requires
        0 <= k <= sh.artists.len(),
        sh.artists.len() <= usize::MAX,
        good_shared(sh),
        good_credits(cr, sh.artists.len() as int),
    ensures
        ({
            let (sh1, cr1) = candidates_upto(sh, cr, r, name, support, k);
            &&& sh1.artists.len() == sh.artists.len()
            &&& same_names(sh.artists, sh1.artists, sh.artists.len() as int)
            &&& good_shared(sh1)
            &&& good_credits(cr1, sh.artists.len() as int)
            &&& forall|a: int| 0 <= a < k && answers_to(#[trigger] sh.artists[a], name) ==> credited(cr1, a as usize, support)
            &&& keeps_credits(cr, cr1)
        }),
    decreases k,
{
    if k > 0 {
        lemma_candidates_upto_good(sh, cr, r, name, support, k - 1);
        let (sh1, cr1) = candidates_upto(sh, cr, r, name, support, k - 1);
        lemma_candidate_good(sh1, cr1, r, name, support, k - 1);
        let (sh2, cr2) = candidate(sh1, cr1, r, name, support, k - 1);
        assert forall|a: int| 0 <= a < k && answers_to(#[trigger] sh.artists[a], name) implies credited(cr2, a as usize, support) by {
            assert(answers_to(sh1.artists[a], name));
            if a < k - 1 {
                assert(credited(cr1, a as usize, support));
            }
        }
    }
}

/// Some artist among the first `n` answers to `name` and is credited.
pub open spec fn name_credited(artists: Seq<ArtistView>, cr: Credits, name: Seq<char>, support: bool) -> bool {
    exists|a: int| 0 <= a < artists.len() && answers_to(#[trigger] artists[a], name) && credited(cr, a as usize, support)
}

proof fn lemma_map_release_name_good(sh: SharedView, cr: Credits, r: usize, name: Seq<char>, support: bool)
    requires
        sh.artists.len() < usize::MAX,
        good_shared(sh),
        good_credits(cr, sh.artists.len() as int),
    ensures
        ({
            let (sh1, cr1) = map_release_name(sh, cr, r, name, support);
            &&& sh.artists.len() <= sh1.artists.len() <= sh.artists.len() + 1
            &&& same_names(sh.artists, sh1.artists, sh.artists.len() as int)
            &&& good_shared(sh1)
            &&& good_credits(cr1, sh1.artists.len() as int)
            &&& name_credited(sh1.artists, cr1, name, support)
            &&& keeps_credits(cr, cr1)
        }),
{
    let n = sh.artists.len() as int;
    let (sh1, cr1) = map_release_name(sh, cr, r, name, support);
    if any_answers(sh.artists, name, n) {
        lemma_candidates_upto_good(sh, cr, r, name, support, n);
        let a = choose|a: int| 0 <= a < n && answers_to(#[trigger] sh.artists[a], name);
        assert(answers_to(sh1.artists[a], name));
        assert(credited(cr1, a as usize, support));
    } else {
        assert(!sh.main_artists.contains(n as usize));
        assert(!sh.support_artists.contains(n as usize));
        assert(!cr.main.contains(n as usize));
        assert(!cr.support.contains(n as usize));
        if support {
            lemma_good_ids_push(sh.support_artists, n, n + 1, n as usize);
            lemma_good_ids_push(cr.support, n, n + 1, n as usize);
            lemma_good_ids_grow(sh.main_artists, n, n + 1);
            lemma_good_ids_grow(cr.main, n, n + 1);
            assert(cr1.support[cr.support.len() as int] == n as usize);
        } else {
            lemma_good_ids_push(sh.main_artists, n, n + 1, n as usize);
            lemma_good_ids_push(cr.main, n, n + 1, n as usize);
            lemma_good_ids_grow(sh.support_artists, n, n + 1);
            lemma_good_ids_grow(cr.support, n, n + 1);
            assert(cr1.main[cr.main.len() as int] == n as usize);
        }
        assert(answers_to(sh1.artists[n], name));
        assert(credited(cr1, n as usize, support));
        assert forall|x: usize| cr.main.contains(x) implies #[trigger] cr1.main.contains(x) by {
            let i = choose|i: int| 0 <= i < cr.main.len() && cr.main[i] == x;
            assert(cr1.main[i] == x);
        }
        assert forall|x: usize| cr.support.contains(x) implies #[trigger] cr1.support.contains(x) by {
            let i = choose|i: int| 0 <= i < cr.support.len() && cr.support[i] == x;
            assert(cr1.support[i] == x);
        }
    }
}

proof fn lemma_name_credited_persists(
    artists1: Seq<ArtistView>,
    cr1: Credits,
    artists2: Seq<ArtistView>,
    cr2: Credits,
    name: Seq<char>,
    support: bool,
)
    requires
        name_credited(artists1, cr1, name, support),
        artists1.len() <= artists2.len(),
        same_names(artists1, artists2, artists1.len() as int),
        keeps_credits(cr1, cr2),
    ensures
        name_credited(artists2, cr2, name, support),
{
    let a = choose|a: int| 0 <= a < artists1.len() && answers_to(#[trigger] artists1[a], name) && credited(cr1, a as usize, support);
    assert(answers_to(artists2[a], name));
    if support {
        if cr1.main.contains(a as usize) {
            assert(cr2.main.contains(a as usize));
        } else {
            assert(cr2.support.contains(a as usize));
        }
    } else {
        assert(cr2.main.contains(a as usize));
    }
}

proof fn lemma_same_names_trans(a: Seq<ArtistView>, b: Seq<ArtistView>, c: Seq<ArtistView>, n: int, m: int)
    requires
        n <= m,
        same_names(a, b, n),
        same_names(b, c, m),
    ensures
        same_names(a, c, n),
{
    assert forall|i: int| 0 <= i < n implies (#[trigger] c[i]).name == a[i].name && c[i].aliases == a[i].aliases by {
        assert(b[i].name == a[i].name);
    }
}

proof fn lemma_keeps_credits_trans(a: Credits, b: Credits, c: Credits)
    requires
        keeps_credits(a, b),
        keeps_credits(b, c),
    ensures
        keeps_credits(a, c),
{
    assert forall|x: usize| a.main.contains(x) implies #[trigger] c.main.contains(x) by {
        assert(b.main.contains(x));
    }
    assert forall|x: usize| a.support.contains(x) implies #[trigger] c.support.contains(x) by {
        assert(b.support.contains(x));
    }
}

proof fn lemma_map_release_names_good(
    sh: SharedView,
    cr: Credits,
    r: usize,
    names: Seq<Seq<char>>,
    support: bool,
    k: int,
)
    requires
        0 <= k <= names.len(),
        sh.artists.len() + k <= usize::MAX,
        good_shared(sh),
        good_credits(cr, sh.artists.len() as int),
    ensures
        ({
            let (sh1, cr1) = map_release_names(sh, cr, r, names, support, k);
            &&& sh.artists.len() <= sh1.artists.len() <= sh.artists.len() + k
            &&& same_names(sh.artists, sh1.artists, sh.artists.len() as int)
            &&& good_shared(sh1)
            &&& good_credits(cr1, sh1.artists.len() as int)
            &&& forall|i: int| 0 <= i < k ==> name_credited(sh1.artists, cr1, #[trigger] names[i], support)
            &&& keeps_credits(cr, cr1)
        }),
    decreases k,
{
    if k == 0 {
        assert(keeps_credits(cr, cr));
    } else {
        lemma_map_release_names_good(sh, cr, r, names, support, k - 1);
        let (sh1, cr1) = map_release_names(sh, cr, r, names, support, k - 1);
        lemma_map_release_name_good(sh1, cr1, r, names[k - 1], support);
        let (sh2, cr2) = map_release_name(sh1, cr1, r, names[k - 1], support);
        lemma_same_names_trans(sh.artists, sh1.artists, sh2.artists, sh.artists.len() as int, sh1.artists.len() as int);
        lemma_keeps_credits_trans(cr, cr1, cr2);
        assert forall|i: int| 0 <= i < k implies name_credited(sh2.artists, cr2, #[trigger] names[i], support) by {
            if i < k - 1 {
                lemma_name_credited_persists(sh1.artists, cr1, sh2.artists, cr2, names[i], support);
            }
        }
    }
}

/// Some artist answers to `name` and is an artist of the track.
pub open spec fn track_name_mapped(artists: Seq<ArtistView>, track: Seq<usize>, name: Seq<char>) -> bool {
    exists|a: int| 0 <= a < artists.len() && answers_to(#[trigger] artists[a], name) && track.contains(a as usize)
}

/// Every artist of `t` stays one in `t1`.
pub open spec fn keeps_ids(t: Seq<usize>, t1: Seq<usize>) -> bool {
    forall|x: usize| t.contains(x) ==> #[trigger] t1.contains(x)
}

proof fn lemma_track_candidates_good(artists: Seq<ArtistView>, track: Seq<usize>, name: Seq<char>, k: int)
    requires
        0 <= k <= artists.len(),
        artists.len() <= usize::MAX,
        good_ids(track, artists.len() as int),
    ensures
        ({
            let t1 = track_candidates_upto(artists, track, name, k);
            &&& good_ids(t1, artists.len() as int)
            &&& keeps_ids(track, t1)
            &&& forall|a: int| 0 <= a < k && answers_to(#[trigger] artists[a], name) ==> t1.contains(a as usize)
        }),
    decreases k,
{
    if k > 0 {
        lemma_track_candidates_good(artists, track, name, k - 1);
        let t0 = track_candidates_upto(artists, track, name, k - 1);
        let t1 = track_candidate(artists, t0, name, k - 1);
        if answers_to(artists[k - 1], name) && !t0.contains((k - 1) as usize) {
            lemma_good_ids_push(t0, artists.len() as int, artists.len() as int, (k - 1) as usize);
            assert(t1[t0.len() as int] == (k - 1) as usize);
        }
        assert forall|x: usize| track.contains(x) implies #[trigger] t1.contains(x) by {
            assert(t0.contains(x));
            let i = choose|i: int| 0 <= i < t0.len() && t0[i] == x;
            assert(t1[i] == x);
        }
        assert forall|a: int| 0 <= a < k && answers_to(#[trigger] artists[a], name) implies t1.contains(a as usize) by {
            if a < k - 1 {
                assert(t0.contains(a as usize));
                let i = choose|i: int| 0 <= i < t0.len() && t0[i] == a as usize;
                assert(t1[i] == a as usize);
            }
        }
    }
}

proof fn lemma_map_track_name_good(artists: Seq<ArtistView>, track: Seq<usize>, name: Seq<char>)
    requires
        artists.len() < usize::MAX,
        good_ids(track, artists.len() as int),
    ensures
        ({
            let (artists1, t1) = map_track_name(artists, track, name);
            &&& artists.len() <= artists1.len() <= artists.len() + 1
            &&& same_names(artists, artists1, artists.len() as int)
            &&& good_ids(t1, artists1.len() as int)
            &&& keeps_ids(track, t1)
            &&& track_name_mapped(artists1, t1, name)
        }),
{
    let n = artists.len() as int;
    let (artists1, t1) = map_track_name(artists, track, name);
    if any_answers(artists, name, n) {
        lemma_track_candidates_good(artists, track, name, n);
        let a = choose|a: int| 0 <= a < n && answers_to(#[trigger] artists[a], name);
        assert(t1.contains(a as usize));
    } else {
        assert(!track.contains(n as usize));
        lemma_good_ids_push(track, n, n + 1, n as usize);
        assert(t1[track.len() as int] == n as usize);
        assert(answers_to(artists1[n], name));
        assert forall|x: usize| track.contains(x) implies #[trigger] t1.contains(x) by {
            let i = choose|i: int| 0 <= i < track.len() && track[i] == x;
            assert(t1[i] == x);
        }
    }
}

proof fn lemma_track_name_mapped_persists(
    artists1: Seq<ArtistView>,
    t1: Seq<usize>,
    artists2: Seq<ArtistView>,
    t2: Seq<usize>,
    name: Seq<char>,
)
    requires
        track_name_mapped(artists1, t1, name),
        artists1.len() <= artists2.len(),
        same_names(artists1, artists2, artists1.len() as int),
        keeps_ids(t1, t2),
    ensures
        track_name_mapped(artists2, t2, name),
{
    let a = choose|a: int| 0 <= a < artists1.len() && answers_to(#[trigger] artists1[a], name) && t1.contains(a as usize);
    assert(answers_to(artists2[a], name));
    assert(t2.contains(a as usize));
}

proof fn lemma_map_track_names_good(artists: Seq<ArtistView>, track: Seq<usize>, names: Seq<Seq<char>>, k: int)
    requires
        0 <= k <= names.len(),
        artists.len() + k <= usize::MAX,
        good_ids(track, artists.len() as int),
    ensures
        ({
            let (artists1, t1) = map_track_names(artists, track, names, k);
            &&& artists.len() <= artists1.len() <= artists.len() + k
            &&& same_names(artists, artists1, artists.len() as int)
            &&& good_ids(t1, artists1.len() as int)
            &&& keeps_ids(track, t1)
            &&& forall|i: int| 0 <= i < k ==> track_name_mapped(artists1, t1, #[trigger] names[i])
        }),
    decreases k,
{
    if k > 0 {
        lemma_map_track_names_good(artists, track, names, k - 1);
        let (artists1, t1) = map_track_names(artists, track, names, k - 1);
        lemma_map_track_name_good(artists1, t1, names[k - 1]);
        let (artists2, t2) = map_track_name(artists1, t1, names[k - 1]);
        lemma_same_names_trans(artists, artists1, artists2, artists.len() as int, artists1.len() as int);
        assert forall|x: usize| track.contains(x) implies #[trigger] t2.contains(x) by {
            assert(t1.contains(x));
        }
        assert forall|i: int| 0 <= i < k implies track_name_mapped(artists2, t2, #[trigger] names[i]) by {
            if i < k - 1 {
                lemma_track_name_mapped_persists(artists1, t1, artists2, t2, names[i]);
            }
        }
    } else {
        assert(keeps_ids(track, track));
    }
}

/// How many artist names the first `k` tracks have to map.
pub open spec fn track_names_count(tracks: Seq<TrackView>, k: int) -> int
    decreases k,
{
    if k <= 0 {
        0
    } else {
        track_names_count(tracks, k - 1) + tracks[k - 1].artists_to_map.len()
    }
}

/// Each of the first `k` tracks has an artist for each of its names.
pub open spec fn tracks_mapped(artists: Seq<ArtistView>, before: Seq<TrackView>, after: Seq<TrackView>, k: int) -> bool {
    forall|t: int, i: int|
        0 <= t < k && 0 <= i < before[t].artists_to_map.len() ==> track_name_mapped(
            artists,
            after[t].artists,
            #[trigger] before[t].artists_to_map[i],
        )
}

proof fn lemma_map_tracks_good(artists: Seq<ArtistView>, tracks: Seq<TrackView>, k: int)
    requires
        0 <= k <= tracks.len(),
        artists.len() + track_names_count(tracks, k) <= usize::MAX,
        good_tracks(tracks, artists.len() as int),
    ensures
        ({
            let (a1, t1) = map_tracks(artists, tracks, k);
            &&& artists.len() <= a1.len() <= artists.len() + track_names_count(tracks, k)
            &&& same_names(artists, a1, artists.len() as int)
            &&& good_tracks(t1, a1.len() as int)
            &&& tracks_mapped(a1, tracks, t1, k)
        }),
    decreases k,
{
    lemma_map_tracks_frame(artists, tracks, k);
    if k > 0 {
        assert(track_names_count(tracks, k - 1) <= track_names_count(tracks, k));
        lemma_map_tracks_good(artists, tracks, k - 1);
        lemma_map_tracks_frame(artists, tracks, k - 1);
        let (a0, t0) = map_tracks(artists, tracks, k - 1);
        let tr = t0[k - 1];
        assert(tr == tracks[k - 1]);
        lemma_map_track_names_good(a0, tr.artists, tr.artists_to_map, tr.artists_to_map.len() as int);
        let (a2, mapped) = map_track_names(a0, tr.artists, tr.artists_to_map, tr.artists_to_map.len() as int);
        let t2 = t0.update(k - 1, TrackView { artists_to_map: seq![], artists: mapped });
        lemma_same_names_trans(artists, a0, a2, artists.len() as int, a0.len() as int);
        assert forall|t: int| 0 <= t < t2.len() implies good_ids(#[trigger] t2[t].artists, a2.len() as int) by {
            if t != k - 1 {
                assert(good_ids(t0[t].artists, a0.len() as int));
                lemma_good_ids_grow(t0[t].artists, a0.len() as int, a2.len() as int);
            }
        }
        assert forall|t: int, i: int|
            0 <= t < k && 0 <= i < tracks[t].artists_to_map.len() implies track_name_mapped(
            a2,
            t2[t].artists,
            #[trigger] tracks[t].artists_to_map[i],
        ) by {
            if t < k - 1 {
                assert(track_name_mapped(a0, t0[t].artists, tracks[t].artists_to_map[i]));
                assert(keeps_ids(t0[t].artists, t2[t].artists));
                lemma_track_name_mapped_persists(a0, t0[t].artists, a2, t2[t].artists, tracks[t].artists_to_map[i]);
            } else {
                assert(tracks[t].artists_to_map[i] == tr.artists_to_map[i]);
            }
        }
    }
}

/// How many artist names a release and its tracks have to map.
pub open spec fn release_names_count(rel: ReleaseView) -> int {
    rel.main_artists_to_map.len() + rel.support_artists_to_map.len() + track_names_count(
        rel.tracks,
        rel.tracks.len() as int,
    )
}

/// Each artist name of the release `before` has an artist in `after`: a
/// main artist name among the main artists, a support artist name among
/// the main or support artists, a track's artist name among the track's
/// artists; each such artist answers to the name.
pub open spec fn release_mapped(artists: Seq<ArtistView>, before: ReleaseView, after: ReleaseView) -> bool {
    let credits = Credits { main: after.main_artists, support: after.support_artists };
    &&& forall|i: int|
        0 <= i < before.main_artists_to_map.len() ==> name_credited(
            artists,
            credits,
            #[trigger] before.main_artists_to_map[i],
            false,
        )
    &&& forall|i: int|
        0 <= i < before.support_artists_to_map.len() ==> name_credited(
            artists,
            credits,
            #[trigger] before.support_artists_to_map[i],
            true,
        )
    &&& after.tracks.len() == before.tracks.len()
    &&& tracks_mapped(artists, before.tracks, after.tracks, before.tracks.len() as int)
}

proof fn lemma_track_names_count_nonneg(tracks: Seq<TrackView>, k: int)
    ensures
        track_names_count(tracks, k) >= 0,
    decreases k,
{
    if k > 0 {
        lemma_track_names_count_nonneg(tracks, k - 1);
    }
}

proof fn lemma_map_release_good(sh: SharedView, rel: ReleaseView, r: usize)
    requires
        good_shared(sh),
        good_release(rel, sh.artists.len() as int),
        sh.artists.len() + release_names_count(rel) <= usize::MAX,
    ensures
        ({
            let (sh1, rel1) = map_release(sh, rel, r);
            &&& sh.artists.len() <= sh1.artists.len() <= sh.artists.len() + release_names_count(rel)
            &&& same_names(sh.artists, sh1.artists, sh.artists.len() as int)
            &&& good_shared(sh1)
            &&& good_release(rel1, sh1.artists.len() as int)
            &&& release_mapped(sh1.artists, rel, rel1)
        }),
{
    lemma_track_names_count_nonneg(rel.tracks, rel.tracks.len() as int);
    let cr0 = Credits { main: rel.main_artists, support: rel.support_artists };
    let m = rel.main_artists_to_map;
    let s = rel.support_artists_to_map;
    lemma_map_release_names_good(sh, cr0, r, m, false, m.len() as int);
    let (sh1, cr1) = map_release_names(sh, cr0, r, m, false, m.len() as int);
    lemma_map_release_names_good(sh1, cr1, r, s, true, s.len() as int);
    let (sh2, cr2) = map_release_names(sh1, cr1, r, s, true, s.len() as int);
    assert forall|t: int| 0 <= t < rel.tracks.len() implies good_ids(#[trigger] rel.tracks[t].artists, sh2.artists.len() as int) by {
        lemma_good_ids_grow(rel.tracks[t].artists, sh.artists.len() as int, sh2.artists.len() as int);
    }
    lemma_map_tracks_good(sh2.artists, rel.tracks, rel.tracks.len() as int);
    lemma_map_tracks_frame(sh2.artists, rel.tracks, rel.tracks.len() as int);
    let (artists3, tracks3) = map_tracks(sh2.artists, rel.tracks, rel.tracks.len() as int);
    lemma_same_names_trans(sh.artists, sh1.artists, sh2.artists, sh.artists.len() as int, sh1.artists.len() as int);
    lemma_same_names_trans(sh.artists, sh2.artists, artists3, sh.artists.len() as int, sh2.artists.len() as int);
    lemma_good_ids_grow(sh2.main_artists, sh2.artists.len() as int, artists3.len() as int);
    lemma_good_ids_grow(sh2.support_artists, sh2.artists.len() as int, artists3.len() as int);
    lemma_good_ids_grow(cr2.main, sh2.artists.len() as int, artists3.len() as int);
    lemma_good_ids_grow(cr2.support, sh2.artists.len() as int, artists3.len() as int);
    assert(keeps_credits(cr2, cr2));
    assert forall|i: int| 0 <= i < m.len() implies name_credited(artists3, cr2, #[trigger] m[i], false) by {
        lemma_name_credited_persists(sh1.artists, cr1, sh2.artists, cr2, m[i], false);
        lemma_name_credited_persists(sh2.artists, cr2, artists3, cr2, m[i], false);
    }
    assert forall|i: int| 0 <= i < s.len() implies name_credited(artists3, cr2, #[trigger] s[i], true) by {
        lemma_name_credited_persists(sh2.artists, cr2, artists3, cr2, s[i], true);
    }
}

/// How many artist names the first `k` releases (with their tracks) have
/// to map.
pub open spec fn releases_names_count(releases: Seq<ReleaseView>, k: int) -> int
    decreases k,
{
    if k <= 0 {
        0
    } else {
        releases_names_count(releases, k - 1) + release_names_count(releases[k - 1])
    }
}

proof fn lemma_good_release_grow(rel: ReleaseView, n: int, m: int)
    requires
        good_release(rel, n),
        n <= m,
    ensures
        good_release(rel, m),
{
    assert forall|t: int| 0 <= t < rel.tracks.len() implies good_ids(#[trigger] rel.tracks[t].artists, m) by {
        lemma_good_ids_grow(rel.tracks[t].artists, n, m);
    }
}

proof fn lemma_release_mapped_persists(
    artists1: Seq<ArtistView>,
    artists2: Seq<ArtistView>,
    before: ReleaseView,
    after: ReleaseView,
)
    requires
        release_mapped(artists1, before, after),
        artists1.len() <= artists2.len(),
        same_names(artists1, artists2, artists1.len() as int),
    ensures
        release_mapped(artists2, before, after),
{
    let credits = Credits { main: after.main_artists, support: after.support_artists };
    assert(keeps_credits(credits, credits));
    assert forall|i: int| 0 <= i < before.main_artists_to_map.len() implies name_credited(
        artists2,
        credits,
        #[trigger] before.main_artists_to_map[i],
        false,
    ) by {
        lemma_name_credited_persists(artists1, credits, artists2, credits, before.main_artists_to_map[i], false);
    }
    assert forall|i: int| 0 <= i < before.support_artists_to_map.len() implies name_credited(
        artists2,
        credits,
        #[trigger] before.support_artists_to_map[i],
        true,
    ) by {
        lemma_name_credited_persists(artists1, credits, artists2, credits, before.support_artists_to_map[i], true);
    }
    assert forall|t: int, i: int|
        0 <= t < before.tracks.len() && 0 <= i < before.tracks[t].artists_to_map.len() implies track_name_mapped(
        artists2,
        after.tracks[t].artists,
        #[trigger] before.tracks[t].artists_to_map[i],
    ) by {
        assert(keeps_ids(after.tracks[t].artists, after.tracks[t].artists));
        lemma_track_name_mapped_persists(
            artists1,
            after.tracks[t].artists,
            artists2,
            after.tracks[t].artists,
            before.tracks[t].artists_to_map[i],
        );
    }
}

proof fn lemma_releases_names_nonneg(releases: Seq<ReleaseView>, k: int)
    ensures
        releases_names_count(releases, k) >= 0,
    decreases k,
{
    if k > 0 {
        lemma_releases_names_nonneg(releases, k - 1);
        lemma_track_names_count_nonneg(releases[k - 1].tracks, releases[k - 1].tracks.len() as int);
    }
}

proof fn lemma_map_releases_good(c: CatalogView, k: int)
    requires
        0 <= k <= c.releases.len(),
        good_catalog(c),
        c.shared.artists.len() + releases_names_count(c.releases, k) <= usize::MAX,
    ensures
        ({
            let m = map_releases(c, k);
            &&& c.shared.artists.len() <= m.shared.artists.len() <= c.shared.artists.len() + releases_names_count(c.releases, k)
            &&& same_names(c.shared.artists, m.shared.artists, c.shared.artists.len() as int)
            &&& good_catalog(m)
            &&& forall|r: int| 0 <= r < k ==> release_mapped(m.shared.artists, c.releases[r], #[trigger] m.releases[r])
        }),
    decreases k,
{
    lemma_map_releases_frame(c, k);
    if k > 0 {
        lemma_releases_names_nonneg(c.releases, k - 1);
        lemma_track_names_count_nonneg(c.releases[k - 1].tracks, c.releases[k - 1].tracks.len() as int);
        lemma_map_releases_good(c, k - 1);
        lemma_map_releases_frame(c, k - 1);
        let c1 = map_releases(c, k - 1);
        let rel = c1.releases[k - 1];
        assert(rel == c.releases[k - 1]);
        lemma_map_release_good(c1.shared, rel, (k - 1) as usize);
        let (sh, rel1) = map_release(c1.shared, rel, (k - 1) as usize);
        let m = map_releases(c, k);
        assert(m.shared == sh);
        assert(m.releases == c1.releases.update(k - 1, rel1));
        lemma_same_names_trans(
            c.shared.artists,
            c1.shared.artists,
            sh.artists,
            c.shared.artists.len() as int,
            c1.shared.artists.len() as int,
        );
        assert forall|r: int| 0 <= r < m.releases.len() implies good_release(#[trigger] m.releases[r], m.shared.artists.len() as int) by {
            if r != k - 1 {
                lemma_good_release_grow(c1.releases[r], c1.shared.artists.len() as int, sh.artists.len() as int);
            }
        }
        assert forall|r: int| 0 <= r < k implies release_mapped(m.shared.artists, c.releases[r], #[trigger] m.releases[r]) by {
            if r < k - 1 {
                lemma_release_mapped_persists(c1.shared.artists, sh.artists, c.releases[r], c1.releases[r]);
            }
        }
    }
}

/// Mapping keeps every list of artists free of repetitions and within the
/// catalog's artists, keeps the names and aliases of the artists known
/// before, and gives every artist name of every release and track an
/// artist that answers to it: a release's main artist name one of its
/// main artists, a support artist name one of its main or support artists,
/// a track's artist name one of the track's artists.
pub proof fn lemma_mapping_credits_every_name(c: CatalogView)
    requires
        good_catalog(c),
        c.shared.artists.len() + releases_names_count(c.releases, c.releases.len() as int) <= usize::MAX,
    ensures
        ({
            let m = map_releases(c, c.releases.len() as int);
            &&& good_catalog(m)
            &&& c.shared.artists.len() <= m.shared.artists.len()
            &&& same_names(c.shared.artists, m.shared.artists, c.shared.artists.len() as int)
            &&& forall|r: int| 0 <= r < c.releases.len() ==> release_mapped(m.shared.artists, c.releases[r], #[trigger] m.releases[r])
        }),
{
    lemma_releases_names_nonneg(c.releases, c.releases.len() as int);
    lemma_map_releases_good(c, c.releases.len() as int);
}

/// The number of the first `k` releases on which artist `a` is a main
/// artist.
pub open spec fn releases_featuring(releases: Seq<ReleaseView>, a: usize, k: int) -> int
    decreases k,
{
    if k <= 0 {
        0
    } else {
        releases_featuring(releases, a, k - 1) + if releases[k - 1].main_artists.contains(a) {
            1int
        } else {
            0int
        }
    }
}

/// The number of the first `k` tracks on which artist `a` is an artist.
pub open spec fn tracks_featuring_in(tracks: Seq<TrackView>, a: usize, k: int) -> int
    decreases k,
{
    if k <= 0 {
        0
    } else {
        tracks_featuring_in(tracks, a, k - 1) + if tracks[k - 1].artists.contains(a) {
            1int
        } else {
            0int
        }
    }
}

/// The number of tracks of the first `k` releases on which artist `a` is
/// an artist.
pub open spec fn tracks_featuring(releases: Seq<ReleaseView>, a: usize, k: int) -> int
    decreases k,
{
    if k <= 0 {
        0
    } else {
        tracks_featuring(releases, a, k - 1) + tracks_featuring_in(
            releases[k - 1].tracks,
            a,
            releases[k - 1].tracks.len() as int,
        )
    }
}

/// The number of tracks of the first `k` releases.
pub open spec fn tracks_count(releases: Seq<ReleaseView>, k: int) -> int
    decreases k,
{
    if k <= 0 {
        0
    } else {
        tracks_count(releases, k - 1) + releases[k - 1].tracks.len()
    }
}

/// How featured artist `a` is: on how many releases it is a main artist,
/// then on how many tracks it is an artist.
pub open spec fn featured(c: CatalogView, a: usize) -> (int, int) {
    (
        releases_featuring(c.releases, a, c.releases.len() as int),
        tracks_featuring(c.releases, a, c.releases.len() as int),
    )
}

pub open spec fn lex_less(x: (int, int), y: (int, int)) -> bool {
    x.0 < y.0 || (x.0 == y.0 && x.1 < y.1)
}

/// Artist `a` is the catalog's most featured artist: no artist is featured
/// more (on releases, then on tracks), and every artist before it less.
pub open spec fn is_most_featured(c: CatalogView, a: int) -> bool {
    &&& 0 <= a < c.shared.artists.len()
    &&& forall|b: int| 0 <= b < c.shared.artists.len() ==> !lex_less(featured(c, a as usize), #[trigger] featured(c, b as usize))
    &&& forall|b: int| 0 <= b < a ==> lex_less(#[trigger] featured(c, b as usize), featured(c, a as usize))
}

proof fn lemma_featuring_bounds(releases: Seq<ReleaseView>, a: usize, k: int)
    requires
        0 <= k <= releases.len(),
    ensures
        0 <= releases_featuring(releases, a, k) <= k,
        0 <= tracks_featuring(releases, a, k) <= tracks_count(releases, k),
    decreases k,
{
    if k > 0 {
        lemma_featuring_bounds(releases, a, k - 1);
        lemma_tracks_featuring_in_bounds(releases[k - 1].tracks, a, releases[k - 1].tracks.len() as int);
    }
}

proof fn lemma_tracks_featuring_in_bounds(tracks: Seq<TrackView>, a: usize, k: int)
    requires
        0 <= k <= tracks.len(),
    ensures
        0 <= tracks_featuring_in(tracks, a, k) <= k,
    decreases k,
{
    if k > 0 {
        lemma_tracks_featuring_in_bounds(tracks, a, k - 1);
    }
}

proof fn lemma_tracks_count_mono(releases: Seq<ReleaseView>, k: int, m: int)
    requires
        0 <= k <= m <= releases.len(),
    ensures
        tracks_count(releases, k) <= tracks_count(releases, m),
    decreases m - k,
{
    if k < m {
        lemma_tracks_count_mono(releases, k, m - 1);
    }
}

/// On how many tracks of `tracks` artist `a` is an artist.
fn count_tracks_featuring(tracks: &Vec<TrackArtists>, a: usize) -> (count: usize)
    ensures
        count == tracks_featuring_in(track_views(tracks@), a, tracks@.len() as int),
{
    let ghost tv = track_views(tracks@);
    let mut count: usize = 0;
    let mut t: usize = 0;
    while t < tracks.len()
        invariant
            t <= tracks@.len(),
            tv == track_views(tracks@),
            count == tracks_featuring_in(tv, a, t as int),
        decreases tracks@.len() - t,
    {
        proof {
            lemma_tracks_featuring_in_bounds(tv, a, t as int);
        }
        if contains_index(&tracks[t].artists, a) {
            count = count + 1;
        }
        t = t + 1;
    }
    count
}

impl ArtistCatalog {
    /// How featured artist `a` is: on how many releases it is a main
    /// artist, and on how many tracks an artist.
    fn featured_counts(&self, a: usize) -> (counts: (usize, usize))
        requires
            tracks_count(self@.releases, self@.releases.len() as int) <= usize::MAX,
        ensures
            counts.0 as int == featured(self@, a).0,
            counts.1 as int == featured(self@, a).1,
    {
        let ghost c = self@;
        let mut releases: usize = 0;
        let mut tracks: usize = 0;
        let mut r: usize = 0;
        while r < self.releases.len()
            invariant
                r <= self.releases@.len(),
                c == self@,
                tracks_count(c.releases, c.releases.len() as int) <= usize::MAX,
                releases as int == releases_featuring(c.releases, a, r as int),
                tracks as int == tracks_featuring(c.releases, a, r as int),
            decreases self.releases@.len() - r,
        {
            proof {
                lemma_featuring_bounds(c.releases, a, r + 1);
                lemma_tracks_count_mono(c.releases, r + 1, c.releases.len() as int);
            }
            if contains_index(&self.releases[r].main_artists, a) {
                releases = releases + 1;
            }
            let on_tracks = count_tracks_featuring(&self.releases[r].tracks, a);
            tracks = tracks + on_tracks;
            r = r + 1;
        }
        (releases, tracks)
    }

    /// The catalog's most featured artist (on releases as a main artist,
    /// then on tracks), the first one where several are featured alike; it
    /// becomes the catalog's artist.
    pub fn most_featured_artist(&self) -> (artist: Option<usize>)
        requires
            tracks_count(self@.releases, self@.releases.len() as int) <= usize::MAX,
        ensures
            artist is None <==> self@.shared.artists.len() == 0,
            artist matches Some(a) ==> is_most_featured(self@, a as int),
    {
        let ghost c = self@;
        let mut best: Option<(usize, usize, usize)> = None;
        let mut a: usize = 0;
        while a < self.artists.len()
            invariant
                a <= self.artists@.len(),
                c == self@,
                tracks_count(c.releases, c.releases.len() as int) <= usize::MAX,
                best is None <==> a == 0,
                best matches Some((b, nr, nt)) ==> {
                    &&& b < a
                    &&& (nr as int, nt as int) == featured(c, b)
                    &&& forall|x: int| 0 <= x < a ==> !lex_less(featured(c, b), #[trigger] featured(c, x as usize))
                    &&& forall|x: int| 0 <= x < b ==> lex_less(#[trigger] featured(c, x as usize), featured(c, b))
                },
            decreases self.artists@.len() - a,
        {
            let (nr, nt) = self.featured_counts(a);
            match best {
                Some((_, br, bt)) => {
                    if nr > br || (nr == br && nt > bt) {
                        best = Some((a, nr, nt));
                    }
                },
                None => {
                    best = Some((a, nr, nt));
                },
            }
            a = a + 1;
        }
        match best {
            Some((b, _, _)) => Some(b),
            None => None,
        }
    }
}

/// An artist is unlisted where it is credited on some release, and only
/// on unlisted ones.
pub open spec fn spec_artist_unlisted(artist: ArtistView, release_unlisted: Seq<bool>) -> bool {
    artist.releases.len() > 0 && forall|i: int|
        0 <= i < artist.releases.len() ==> release_unlisted[#[trigger] artist.releases[i] as int]
}

/// The releases (by index) that are listed, in order.
pub open spec fn spec_public_releases(release_unlisted: Seq<bool>, k: int) -> Seq<usize>
    decreases k,
{
    if k <= 0 {
        seq![]
    } else if release_unlisted[k - 1] {
        spec_public_releases(release_unlisted, k - 1)
    } else {
        spec_public_releases(release_unlisted, k - 1).push((k - 1) as usize)
    }
}

/// The releases (by index) that are listed, given whether each release is
/// unlisted.
pub fn public_releases(release_unlisted: &Vec<bool>) -> (public: Vec<usize>)
    ensures
        public@ == spec_public_releases(release_unlisted@, release_unlisted@.len() as int),
{
    let mut public: Vec<usize> = Vec::new();
    let mut r: usize = 0;
    while r < release_unlisted.len()
        invariant
            r <= release_unlisted@.len(),
            public@ == spec_public_releases(release_unlisted@, r as int),
        decreases release_unlisted@.len() - r,
    {
        if !release_unlisted[r] {
            public.push(r);
        }
        r = r + 1;
    }
    public
}

impl ArtistCatalog {
    /// For each artist, whether it is unlisted, given whether each release
    /// is unlisted.
    pub fn unlisted_artists(&self, release_unlisted: &Vec<bool>) -> (unlisted: Vec<bool>)
        requires
            forall|a: int, i: int|
                0 <= a < self@.shared.artists.len() && 0 <= i < self@.shared.artists[a].releases.len()
                    ==> #[trigger] self@.shared.artists[a].releases[i] < release_unlisted@.len(),
        ensures
            unlisted@.len() == self@.shared.artists.len(),
            forall|a: int|
                0 <= a < unlisted@.len() ==> #[trigger] unlisted@[a] == spec_artist_unlisted(
                    self@.shared.artists[a],
                    release_unlisted@,
                ),
    {
        let ghost artists = self@.shared.artists;
        let mut unlisted: Vec<bool> = Vec::new();
        let mut a: usize = 0;
        while a < self.artists.len()
            invariant
                a <= self.artists@.len(),
                artists == self@.shared.artists,
                unlisted@.len() == a,
                forall|x: int, i: int|
                    0 <= x < artists.len() && 0 <= i < artists[x].releases.len()
                        ==> #[trigger] artists[x].releases[i] < release_unlisted@.len(),
                forall|x: int| 0 <= x < a ==> #[trigger] unlisted@[x] == spec_artist_unlisted(artists[x], release_unlisted@),
            decreases self.artists@.len() - a,
        {
            let releases = &self.artists[a].releases;
            assert(releases@ == artists[a as int].releases);
            let mut all_unlisted = true;
            let mut i: usize = 0;
            while i < releases.len()
                invariant
                    i <= releases@.len(),
                    releases@ == artists[a as int].releases,
                    a < artists.len(),
                    forall|x: int, j: int|
                        0 <= x < artists.len() && 0 <= j < artists[x].releases.len()
                            ==> #[trigger] artists[x].releases[j] < release_unlisted@.len(),
                    all_unlisted == forall|j: int| 0 <= j < i ==> release_unlisted@[#[trigger] releases@[j] as int],
                decreases releases@.len() - i,
            {
                assert(artists[a as int].releases[i as int] < release_unlisted@.len());
                if !release_unlisted[releases[i]] {
                    all_unlisted = false;
                }
                i = i + 1;
            }
            unlisted.push(releases.len() > 0 && all_unlisted);
            a = a + 1;
        }
        unlisted
    }
}

/// Some track's artists differ from those of the track after it: the
/// lists differ in length, or at some position.
pub open spec fn spec_varying_track_artists(tracks: Seq<TrackView>) -> bool {
    exists|t: int| 0 <= t < tracks.len() - 1 && #[trigger] tracks[t].artists != tracks[t + 1].artists
}

impl ReleaseArtists {
    /// Whether the artists of some track differ from those of the others:
    /// whether two neighbouring tracks have different lists of artists.
    pub fn varying_track_artists(&self) -> (varying: bool)
        ensures
            varying == spec_varying_track_artists(self@.tracks),
    {
        let ghost tracks = self@.tracks;
        let mut t: usize = 0;
        while t < self.tracks.len() && self.tracks.len() - t > 1
            invariant
                tracks == self@.tracks,
                t <= self.tracks@.len(),
                forall|u: int| 0 <= u < t && u + 1 < tracks.len() ==> #[trigger] tracks[u].artists == tracks[u + 1].artists,
            decreases self.tracks@.len() - t,
        {
            let current = &self.tracks[t].artists;
            let next = &self.tracks[t + 1].artists;
            assert(current@ == tracks[t as int].artists);
            assert(next@ == tracks[t + 1].artists);
            if current.len() != next.len() {
                assert(tracks[t as int].artists.len() != tracks[t + 1].artists.len());
                return true;
            }
            let mut i: usize = 0;
            while i < current.len()
                invariant
                    tracks == self@.tracks,
                    t + 1 < tracks.len(),
                    current@ == tracks[t as int].artists,
                    next@ == tracks[t + 1].artists,
                    current@.len() == next@.len(),
                    i <= current@.len(),
                    forall|j: int| 0 <= j < i ==> current@[j] == next@[j],
                decreases current@.len() - i,
            {
                if current[i] != next[i] {
                    assert(tracks[t as int].artists[i as int] != tracks[t + 1].artists[i as int]);
                    return true;
                }
                i = i + 1;
            }
            assert(tracks[t as int].artists =~= tracks[t + 1].artists);
            t = t + 1;
        }
        false
    }
}

/// The first `k` of the given artists that have no external page, in order.
pub open spec fn without_external_page(artists: Seq<usize>, external: Seq<bool>, k: int) -> Seq<usize>
    decreases k,
{
    if k <= 0 {
        seq![]
    } else if external[artists[k - 1] as int] {
        without_external_page(artists, external, k - 1)
    } else {
        without_external_page(artists, external, k - 1).push(artists[k - 1])
    }
}

/// `featured` with the first `k` of the support artists added that have no
/// external page and are not featured yet, in order.
pub open spec fn with_support_artists(featured: Seq<usize>, support: Seq<usize>, external: Seq<bool>, k: int) -> Seq<
    usize,
>
    decreases k,
{
    if k <= 0 {
        featured
    } else {
        let before = with_support_artists(featured, support, external, k - 1);
        let a = support[k - 1];
        if external[a as int] || before.contains(a) {
            before
        } else {
            before.push(a)
        }
    }
}

/// The artists featured on a site in label mode, before they are ordered:
/// the catalog's main artists, then, where support artists are featured
/// too, its support artists that are not featured yet; artists with an
/// external page are left out, as they have no page on the site.
pub open spec fn featured_candidates(c: CatalogView, external: Seq<bool>, feature_support_artists: bool) -> Seq<usize> {
    let from_main = without_external_page(c.shared.main_artists, external, c.shared.main_artists.len() as int);
    if feature_support_artists {
        with_support_artists(from_main, c.shared.support_artists, external, c.shared.support_artists.len() as int)
    } else {
        from_main
    }
}

/// The artists are ordered by name.
pub open spec fn sorted_by_name(c: CatalogView, artists: Seq<usize>) -> bool {
    forall|i: int, j: int|
        0 <= i < j < artists.len() ==> lex_le(
            c.shared.artists[#[trigger] artists[i] as int].name,
            c.shared.artists[#[trigger] artists[j] as int].name,
        )
}

impl ArtistCatalog {
    fn insert_by_name(&self, sorted: &mut Vec<usize>, a: usize)
        requires
            a < self@.shared.artists.len(),
            forall|i: int| 0 <= i < old(sorted)@.len() ==> #[trigger] old(sorted)@[i] < self@.shared.artists.len(),
            sorted_by_name(self@, old(sorted)@),
        ensures
            forall|i: int| 0 <= i < final(sorted)@.len() ==> #[trigger] final(sorted)@[i] < self@.shared.artists.len(),
            sorted_by_name(self@, final(sorted)@),
            final(sorted)@.to_multiset() == old(sorted)@.to_multiset().insert(a),
    {
        let ghost c = self@;
        let ghost before = sorted@;
        let mut p: usize = 0;
        while p < sorted.len() && !str_le(self.artists[a].name.as_str(), self.artists[sorted[p]].name.as_str())
            invariant
                c == self@,
                before == sorted@,
                p <= sorted@.len(),
                a < c.shared.artists.len(),
                forall|i: int| 0 <= i < sorted@.len() ==> #[trigger] sorted@[i] < c.shared.artists.len(),
                forall|i: int| 0 <= i < p ==> lex_le(c.shared.artists[#[trigger] sorted@[i] as int].name, c.shared.artists[a as int].name),
            decreases sorted@.len() - p,
        {
            proof {
                lemma_lex_le_total(c.shared.artists[a as int].name, c.shared.artists[sorted@[p as int] as int].name);
            }
            p = p + 1;
        }
        let ghost x = c.shared.artists[a as int].name;
        proof {
            if p < before.len() {
                assert(lex_le(x, c.shared.artists[before[p as int] as int].name));
            }
        }
        sorted.insert(p, a);
        proof {
            let s = sorted@;
            assert(s =~= before.insert(p as int, a));
            assert forall|i: int, j: int| 0 <= i < j < s.len() implies lex_le(
                c.shared.artists[#[trigger] s[i] as int].name,
                c.shared.artists[#[trigger] s[j] as int].name,
            ) by {
                let ni = c.shared.artists[s[i] as int].name;
                let nj = c.shared.artists[s[j] as int].name;
                if j < p {
                    assert(s[i] == before[i] && s[j] == before[j]);
                } else if j == p {
                    assert(s[i] == before[i]);
                } else if i < p {
                    assert(s[i] == before[i] && s[j] == before[j - 1]);
                    let np = c.shared.artists[before[p as int] as int].name;
                    lemma_lex_le_refl(np);
                    assert(lex_le(np, nj));
                    lemma_lex_le_trans(x, np, nj);
                    lemma_lex_le_trans(ni, x, nj);
                } else if i == p {
                    assert(s[j] == before[j - 1]);
                    let np = c.shared.artists[before[p as int] as int].name;
                    lemma_lex_le_refl(np);
                    assert(lex_le(np, nj));
                    lemma_lex_le_trans(x, np, nj);
                } else {
                    assert(s[i] == before[i - 1] && s[j] == before[j - 1]);
                }
            }
            vstd::seq_lib::to_multiset_insert(before, p as int, a);
        }
    }

    /// The artists featured on a site in label mode (by index): the
    /// catalog's main artists, then, where support artists are featured
    /// too, its support artists that are not featured yet, leaving out
    /// artists with an external page; ordered by name (artists of the same
    /// name in no particular order).
    pub fn featured_artists(&self, has_external_page: &Vec<bool>, feature_support_artists: bool) -> (featured: Vec<usize>)
        requires
            has_external_page@.len() == self@.shared.artists.len(),
            forall|i: int| 0 <= i < self@.shared.main_artists.len() ==> #[trigger] self@.shared.main_artists[i] < self@.shared.artists.len(),
            forall|i: int| 0 <= i < self@.shared.support_artists.len() ==> #[trigger] self@.shared.support_artists[i] < self@.shared.artists.len(),
        ensures
            featured@.to_multiset() == featured_candidates(self@, has_external_page@, feature_support_artists).to_multiset(),
            sorted_by_name(self@, featured@),
    {
        let ghost c = self@;
        let ghost ext = has_external_page@;
        let mut candidates: Vec<usize> = Vec::new();
        let mut i: usize = 0;
        while i < self.main_artists.len()
            invariant
                c == self@,
                ext == has_external_page@,
                ext.len() == c.shared.artists.len(),
                i <= c.shared.main_artists.len(),
                forall|k: int| 0 <= k < c.shared.main_artists.len() ==> #[trigger] c.shared.main_artists[k] < c.shared.artists.len(),
                candidates@ == without_external_page(c.shared.main_artists, ext, i as int),
            decreases c.shared.main_artists.len() - i,
        {
            let a = self.main_artists[i];
            if !has_external_page[a] {
                candidates.push(a);
            }
            i = i + 1;
        }
        if feature_support_artists {
            let ghost from_main = candidates@;
            let mut j: usize = 0;
            while j < self.support_artists.len()
                invariant
                    c == self@,
                    ext == has_external_page@,
                    ext.len() == c.shared.artists.len(),
                    j <= c.shared.support_artists.len(),
                    forall|k: int| 0 <= k < c.shared.support_artists.len() ==> #[trigger] c.shared.support_artists[k] < c.shared.artists.len(),
                    candidates@ == with_support_artists(from_main, c.shared.support_artists, ext, j as int),
                decreases c.shared.support_artists.len() - j,
            {
                let a = self.support_artists[j];
                if !has_external_page[a] {
                    let mut found = false;
                    let mut k: usize = 0;
                    while k < candidates.len()
                        invariant
                            k <= candidates@.len(),
                            found == exists|m: int| 0 <= m < k && candidates@[m] == a,
                        decreases candidates@.len() - k,
                    {
                        if candidates[k] == a {
                            found = true;
                        }
                        k = k + 1;
                    }
                    proof {
                        if found {
                            let m = choose|m: int| 0 <= m < k && candidates@[m] == a;
                            assert(candidates@.contains(a));
                        } else {
                            assert(!candidates@.contains(a));
                        }
                    }
                    if !found {
                        candidates.push(a);
                    }
                }
                j = j + 1;
            }
        }
        assert(candidates@ == featured_candidates(c, ext, feature_support_artists));
        proof {
            assert forall|k: int| 0 <= k < candidates@.len() implies #[trigger] candidates@[k] < c.shared.artists.len() by {
                lemma_featured_candidates_in_range(c, ext, feature_support_artists, k);
            }
        }
        let mut featured: Vec<usize> = Vec::new();
        let mut n: usize = 0;
        assert(candidates@.take(0) =~= Seq::<usize>::empty());
        while n < candidates.len()
            invariant
                c == self@,
                n <= candidates@.len(),
                forall|k: int| 0 <= k < candidates@.len() ==> #[trigger] candidates@[k] < c.shared.artists.len(),
                forall|k: int| 0 <= k < featured@.len() ==> #[trigger] featured@[k] < c.shared.artists.len(),
                sorted_by_name(c, featured@),
                featured@.to_multiset() == candidates@.take(n as int).to_multiset(),
            decreases candidates@.len() - n,
        {
            proof {
                assert(candidates@.take(n + 1) =~= candidates@.take(n as int).push(candidates@[n as int]));
                vstd::seq_lib::to_multiset_build(candidates@.take(n as int), candidates@[n as int]);
            }
            self.insert_by_name(&mut featured, candidates[n]);
            n = n + 1;
        }
        assert(candidates@.take(candidates@.len() as int) =~= candidates@);
        featured
    }
}

proof fn lemma_without_external_in_range(artists: Seq<usize>, external: Seq<bool>, bound: nat, k: int, i: int)
    requires
        0 <= k <= artists.len(),
        forall|m: int| 0 <= m < artists.len() ==> #[trigger] artists[m] < bound,
        0 <= i < without_external_page(artists, external, k).len(),
    ensures
        without_external_page(artists, external, k)[i] < bound,
    decreases k,
{
    if k > 0 {
        let prev = without_external_page(artists, external, k - 1);
        if i < prev.len() {
            lemma_without_external_in_range(artists, external, bound, k - 1, i);
        }
    }
}

proof fn lemma_with_support_in_range(featured: Seq<usize>, support: Seq<usize>, external: Seq<bool>, bound: nat, k: int, i: int)
    requires
        0 <= k <= support.len(),
        forall|m: int| 0 <= m < featured.len() ==> #[trigger] featured[m] < bound,
        forall|m: int| 0 <= m < support.len() ==> #[trigger] support[m] < bound,
        0 <= i < with_support_artists(featured, support, external, k).len(),
    ensures
        with_support_artists(featured, support, external, k)[i] < bound,
    decreases k,
{
    if k > 0 {
        let prev = with_support_artists(featured, support, external, k - 1);
        if i < prev.len() {
            lemma_with_support_in_range(featured, support, external, bound, k - 1, i);
        }
    }
}

proof fn lemma_featured_candidates_in_range(c: CatalogView, external: Seq<bool>, feature_support_artists: bool, i: int)
    requires
        forall|m: int| 0 <= m < c.shared.main_artists.len() ==> #[trigger] c.shared.main_artists[m] < c.shared.artists.len(),
        forall|m: int| 0 <= m < c.shared.support_artists.len() ==> #[trigger] c.shared.support_artists[m] < c.shared.artists.len(),
        0 <= i < featured_candidates(c, external, feature_support_artists).len(),
    ensures
        featured_candidates(c, external, feature_support_artists)[i] < c.shared.artists.len(),
{
    let bound = c.shared.artists.len();
    let from_main = without_external_page(c.shared.main_artists, external, c.shared.main_artists.len() as int);
    assert forall|m: int| 0 <= m < from_main.len() implies #[trigger] from_main[m] < bound by {
        lemma_without_external_in_range(c.shared.main_artists, external, bound, c.shared.main_artists.len() as int, m);
    }
    if feature_support_artists {
        lemma_with_support_in_range(from_main, c.shared.support_artists, external, bound, c.shared.support_artists.len() as int, i);
    }
}

} // verus!
