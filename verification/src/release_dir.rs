use vstd::prelude::*;

use crate::manifest::{lemma_lex_le_antisym, lemma_lex_le_total, lemma_lex_le_trans, lex_le, str_le};
use crate::catalog::{is_filename_safe, is_plain_filename, is_subsequence, sanitize};
use crate::text::{str_equal, views};

verus! {

/// What orders the tracks of a release: the track number (from the
/// metadata, else from the file name heuristics), and the source file name.
pub open spec fn track_key(t: (Option<u32>, String)) -> (Option<u32>, Seq<char>) {
    (t.0, t.1@)
}

/// Track `a` goes before track `b`: both have numbers and `a`'s is lower,
/// only `a` has one, or neither has one and `a`'s file name comes first.
pub open spec fn track_before(a: (Option<u32>, Seq<char>), b: (Option<u32>, Seq<char>)) -> bool {
    match (a.0, b.0) {
        (Some(x), Some(y)) => x < y,
        (Some(_), None) => true,
        (None, Some(_)) => false,
        (None, None) => lex_le(a.1, b.1) && a.1 != b.1,
    }
}

/// `order` lists each of the `n` tracks once, sorted by `track_before`, and
/// tracks that neither goes before the other in their original order.
pub open spec fn is_track_order(keys: Seq<(Option<u32>, Seq<char>)>, order: Seq<usize>) -> bool {
    &&& order.len() == keys.len()
    &&& forall|i: int| 0 <= i < order.len() ==> (#[trigger] order[i]) < keys.len()
    &&& forall|i: int, j: int| 0 <= i < j < order.len() ==> order[i] != order[j]
    &&& forall|i: int, j: int|
        0 <= i < j < order.len() ==> !track_before(keys[#[trigger] order[j] as int], keys[#[trigger] order[i] as int])
    &&& forall|i: int, j: int|
        0 <= i < j < order.len() && !track_before(keys[order[i] as int], keys[order[j] as int])
            ==> #[trigger] order[i] < #[trigger] order[j]
}

proof fn lemma_before_trans(a: (Option<u32>, Seq<char>), b: (Option<u32>, Seq<char>), c: (Option<u32>, Seq<char>))
    requires
        track_before(a, b),
        !track_before(c, b),
    ensures
        track_before(a, c),
{
    if a.0 is None && b.0 is None && c.0 is None {
        lemma_lex_le_total(b.1, c.1);
        if lex_le(b.1, c.1) {
            lemma_lex_le_trans(a.1, b.1, c.1);
            if a.1 == c.1 {
                lemma_lex_le_antisym(a.1, b.1);
            }
        } else {
            assert(c.1 == b.1);
        }
    }
}

proof fn lemma_before_asym(a: (Option<u32>, Seq<char>), b: (Option<u32>, Seq<char>))
    requires
        track_before(a, b),
    ensures
        !track_before(b, a),
{
    if a.0 is None && b.0 is None && track_before(b, a) {
        lemma_lex_le_antisym(a.1, b.1);
    }
}

/// Whether track `a` goes before track `b`.
fn goes_before(a: &(Option<u32>, String), b: &(Option<u32>, String)) -> (before: bool)
    ensures
        before == track_before(track_key(*a), track_key(*b)),
{
    match (a.0, b.0) {
        (Some(x), Some(y)) => x < y,
        (Some(_), None) => true,
        (None, Some(_)) => false,
        (None, None) => str_le(a.1.as_str(), b.1.as_str()) && !str_equal(a.1.as_str(), b.1.as_str()),
    }
}

pub open spec fn track_keys(tracks: Seq<(Option<u32>, String)>) -> Seq<(Option<u32>, Seq<char>)> {
    tracks.map_values(|t: (Option<u32>, String)| track_key(t))
}

/// The order of a release's tracks (as indices into `tracks`): by track
/// number, the tracks without one after those with one, and those by file
/// name; where two tracks are alike in this, they keep their order.
pub fn track_order(tracks: &Vec<(Option<u32>, String)>) -> (order: Vec<usize>)
    ensures
        is_track_order(track_keys(tracks@), order@),
{
    let ghost keys = track_keys(tracks@);
    let mut order: Vec<usize> = Vec::new();
    let mut k: usize = 0;
    while k < tracks.len()
        invariant
            k <= tracks@.len(),
            keys == track_keys(tracks@),
            is_track_order(keys.take(k as int), order@),
        decreases tracks@.len() - k,
    {
        let mut p: usize = 0;
        while p < order.len() && !goes_before(&tracks[k], &tracks[order[p]])
            invariant
                p <= order@.len(),
                k < tracks@.len(),
                keys == track_keys(tracks@),
                is_track_order(keys.take(k as int), order@),
                forall|i: int| 0 <= i < p ==> !track_before(keys[k as int], #[trigger] keys[order@[i] as int]),
            decreases order@.len() - p,
        {
            assert(keys.take(k as int)[order@[p as int] as int] == keys[order@[p as int] as int]);
            p = p + 1;
        }
        let ghost before = order@;
        order.insert(p, k);
        proof {
            let kk = keys.take(k + 1);
            let kb = keys.take(k as int);
            assert forall|i: int| 0 <= i < before.len() implies kk[#[trigger] before[i] as int] == kb[before[i] as int] by {
                assert(before[i] < k);
            }
            assert forall|i: int| 0 <= i < before.len() implies keys[#[trigger] before[i] as int] == kb[before[i] as int] by {
                assert(before[i] < k);
            }
            let o = order@;
            assert(o =~= before.insert(p as int, k));
            assert(forall|i: int| 0 <= i < before.len() ==> (#[trigger] before[i]) < k);
            assert forall|i: int, j: int| 0 <= i < j < o.len() implies o[i] != o[j] by {
                if i < p && j > p {
                    assert(o[i] == before[i] && o[j] == before[j - 1]);
                } else if j < p {
                    assert(o[i] == before[i] && o[j] == before[j]);
                } else if i > p {
                    assert(o[i] == before[i - 1] && o[j] == before[j - 1]);
                }
            }
            assert forall|i: int, j: int| 0 <= i < j < o.len() implies !track_before(
                kk[#[trigger] o[j] as int],
                kk[#[trigger] o[i] as int],
            ) && (!track_before(kk[o[i] as int], kk[o[j] as int]) ==> o[i] < o[j]) by {
                if j < p {
                    assert(o[i] == before[i] && o[j] == before[j]);
                } else if j == p {
                    assert(o[i] == before[i]);
                    assert(!track_before(keys[k as int], keys[before[i] as int]));
                } else if i < p {
                    assert(o[i] == before[i] && o[j] == before[j - 1]);
                    assert(i < j - 1);
                } else if i == p {
                    assert(o[j] == before[j - 1]);
                    assert(track_before(keys[k as int], keys[before[p as int] as int]));
                    if j - 1 > p {
                        assert(!track_before(kb[before[j - 1] as int], kb[before[p as int] as int]));
                    }
                    lemma_before_trans(keys[k as int], keys[before[p as int] as int], keys[before[j - 1] as int]);
                    lemma_before_asym(keys[k as int], keys[before[j - 1] as int]);
                } else {
                    assert(o[i] == before[i - 1] && o[j] == before[j - 1]);
                }
            }
        }
        k = k + 1;
    }
    assert(keys.take(tracks@.len() as int) =~= keys);
    order
}

/// How often `x` occurs among the first `k` of `items`.
pub open spec fn count_in(items: Seq<Seq<char>>, x: Seq<char>, k: int) -> int
    decreases k,
{
    if k <= 0 {
        0
    } else {
        count_in(items, x, k - 1) + if items[k - 1] == x {
            1int
        } else {
            0int
        }
    }
}

pub open spec fn count(items: Seq<Seq<char>>, x: Seq<char>) -> int {
    count_in(items, x, items.len() as int)
}

/// The first `k` of `items` that are not `excluded`, each once, in the
/// order in which they first occur.
pub open spec fn collect_new(items: Seq<Seq<char>>, excluded: Seq<Seq<char>>, k: int) -> Seq<Seq<char>>
    decreases k,
{
    if k <= 0 {
        seq![]
    } else {
        let acc = collect_new(items, excluded, k - 1);
        if excluded.contains(items[k - 1]) || acc.contains(items[k - 1]) {
            acc
        } else {
            acc.push(items[k - 1])
        }
    }
}

/// The distinct items, in the order in which they first occur.
pub open spec fn distinct_in_order(items: Seq<Seq<char>>) -> Seq<Seq<char>> {
    collect_new(items, seq![], items.len() as int)
}

proof fn lemma_count_in_bounds(items: Seq<Seq<char>>, x: Seq<char>, k: int)
    requires
        0 <= k <= items.len(),
    ensures
        0 <= count_in(items, x, k) <= k,
    decreases k,
{
    if k > 0 {
        lemma_count_in_bounds(items, x, k - 1);
    }
}

proof fn lemma_count_in_take(items: Seq<Seq<char>>, x: Seq<char>, n: int, k: int)
    requires
        0 <= k <= n <= items.len(),
    ensures
        count_in(items.take(n), x, k) == count_in(items, x, k),
    decreases k,
{
    if k > 0 {
        lemma_count_in_take(items, x, n, k - 1);
    }
}

proof fn lemma_collect_new_take(items: Seq<Seq<char>>, excluded: Seq<Seq<char>>, n: int, k: int)
    requires
        0 <= k <= n <= items.len(),
    ensures
        collect_new(items.take(n), excluded, k) == collect_new(items, excluded, k),
    decreases k,
{
    if k > 0 {
        lemma_collect_new_take(items, excluded, n, k - 1);
    }
}

proof fn lemma_collect_new_contains(items: Seq<Seq<char>>, excluded: Seq<Seq<char>>, k: int, x: Seq<char>)
    requires
        0 <= k <= items.len(),
    ensures
        collect_new(items, excluded, k).contains(x) <==> (!excluded.contains(x) && exists|i: int|
            0 <= i < k && items[i] == x),
    decreases k,
{
    if k > 0 {
        lemma_collect_new_contains(items, excluded, k - 1, x);
        let acc = collect_new(items, excluded, k - 1);
        let c = collect_new(items, excluded, k);
        let pushed = !(excluded.contains(items[k - 1]) || acc.contains(items[k - 1]));
        if pushed {
            assert(c == acc.push(items[k - 1]));
            assert(c[acc.len() as int] == items[k - 1]);
        } else {
            assert(c == acc);
        }
        assert(acc.contains(x) ==> c.contains(x)) by {
            if acc.contains(x) {
                let w = choose|w: int| 0 <= w < acc.len() && acc[w] == x;
                assert(c[w] == x);
            }
        }
        if c.contains(x) {
            if !acc.contains(x) {
                assert(pushed);
                let w = choose|w: int| 0 <= w < c.len() && c[w] == x;
                if w < acc.len() {
                    assert(acc[w] == x);
                }
                assert(items[k - 1] == x);
                assert(0 <= k - 1 < k && items[k - 1] == x);
            } else {
                let i = choose|i: int| 0 <= i < k - 1 && items[i] == x;
                assert(0 <= i < k && items[i] == x);
            }
        }
        if !excluded.contains(x) && (exists|i: int| 0 <= i < k && items[i] == x) {
            let i = choose|i: int| 0 <= i < k && items[i] == x;
            if i < k - 1 {
                assert(acc.contains(x));
            } else if !acc.contains(x) {
                assert(pushed);
            }
        }
    }
}

proof fn lemma_collect_new_distinct(items: Seq<Seq<char>>, excluded: Seq<Seq<char>>, k: int)
    requires
        0 <= k <= items.len(),
    ensures
        forall|i: int, j: int|
            0 <= i < j < collect_new(items, excluded, k).len() ==> collect_new(items, excluded, k)[i]
                != collect_new(items, excluded, k)[j],
    decreases k,
{
    if k > 0 {
        lemma_collect_new_distinct(items, excluded, k - 1);
        let acc = collect_new(items, excluded, k - 1);
        let c = collect_new(items, excluded, k);
        assert forall|i: int, j: int| 0 <= i < j < c.len() implies c[i] != c[j] by {
            if j == acc.len() && c.len() > acc.len() {
                assert(c[i] == acc[i]);
                assert(!acc.contains(items[k - 1]));
            }
        }
    }
}

proof fn lemma_distinct_in_order_distinct(items: Seq<Seq<char>>, k: int)
    requires
        0 <= k <= items.len(),
    ensures
        forall|i: int, j: int|
            0 <= i < j < collect_new(items, seq![], k).len() ==> collect_new(items, seq![], k)[i]
                != collect_new(items, seq![], k)[j],
{
    lemma_collect_new_distinct(items, seq![], k);
}

proof fn lemma_count_in_absent(items: Seq<Seq<char>>, x: Seq<char>, k: int)
    requires
        0 <= k <= items.len(),
        forall|i: int| 0 <= i < k ==> items[i] != x,
    ensures
        count_in(items, x, k) == 0,
    decreases k,
{
    if k > 0 {
        lemma_count_in_absent(items, x, k - 1);
    }
}

proof fn lemma_count_in_none(items: Seq<Seq<char>>, x: Seq<char>, k: int)
    requires
        0 <= k <= items.len(),
        !collect_new(items, seq![], k).contains(x),
    ensures
        count_in(items, x, k) == 0,
{
    lemma_collect_new_contains(items, seq![], k, x);
    assert forall|i: int| 0 <= i < k implies items[i] != x by {
        if items[i] == x {
            assert(exists|i: int| 0 <= i < k && items[i] == x);
        }
    }
    lemma_count_in_absent(items, x, k);
}

/// The distinct items (first occurrence order) and how often each occurs.
fn tally(items: &Vec<String>) -> (result: (Vec<String>, Vec<usize>))
    ensures
        views(result.0@) == distinct_in_order(views(items@)),
        result.1@.len() == result.0@.len(),
        forall|i: int| 0 <= i < result.1@.len() ==> #[trigger] result.1@[i] == count(views(items@), result.0@[i]@),
{
    let ghost all = views(items@);
    let mut names: Vec<String> = Vec::new();
    let mut counts: Vec<usize> = Vec::new();
    let mut k: usize = 0;
    while k < items.len()
        invariant
            k <= items@.len(),
            all == views(items@),
            views(names@) == collect_new(all, seq![], k as int),
            counts@.len() == names@.len(),
            forall|i: int| 0 <= i < counts@.len() ==> #[trigger] counts@[i] == count_in(all, names@[i]@, k as int),
        decreases items@.len() - k,
    {
        let item = items[k].as_str();
        let mut found: Option<usize> = None;
        let mut j: usize = 0;
        while j < names.len()
            invariant
                j <= names@.len(),
                found is None ==> forall|i: int| 0 <= i < j ==> views(names@)[i] != item@,
                found matches Some(f) ==> f < names@.len() && views(names@)[f as int] == item@,
            decreases names@.len() - j,
        {
            if found.is_none() && str_equal(names[j].as_str(), item) {
                found = Some(j);
            }
            j = j + 1;
        }
        proof {
            assert(all[k as int] == item@);
            assert forall|i: int| 0 <= i < counts@.len() implies count_in(all, names@[i]@, k + 1)
                == count_in(all, names@[i]@, k as int) + if names@[i]@ == item@ { 1int } else { 0int } by {}
        }
        match found {
            Some(f) => {
                proof {
                    lemma_count_in_bounds(all, item@, k as int);
                    assert(views(names@).contains(item@));
                    assert forall|i: int| 0 <= i < names@.len() && i != f implies views(names@)[i] != item@ by {
                        lemma_distinct_in_order_distinct(all, k as int);
                    }
                }
                let c = counts[f];
                let ghost before = counts@;
                counts.set(f, c + 1);
                assert forall|i: int| 0 <= i < counts@.len() implies #[trigger] counts@[i] == count_in(all, names@[i]@, k + 1) by {
                    if i != f {
                        assert(views(names@)[i] != item@);
                        assert(counts@[i] == before[i]);
                    }
                }
            },
            None => {
                proof {
                    assert(!views(names@).contains(item@));
                    lemma_count_in_none(all, item@, k as int);
                }
                let ghost before = names@;
                let ghost before_counts = counts@;
                names.push(String::from_str(item));
                counts.push(1);
                assert(views(names@) =~= views(before).push(item@));
                assert(count_in(all, item@, k + 1) == 1);
                assert forall|i: int| 0 <= i < counts@.len() implies #[trigger] counts@[i] == count_in(all, names@[i]@, k + 1) by {
                    if i < before.len() {
                        assert(names@[i] == before[i]);
                        assert(views(before)[i] != item@);
                        assert(counts@[i] == before_counts[i]);
                    } else {
                        assert(names@[i]@ == item@);
                    }
                }
            },
        }
        k = k + 1;
    }
    assert(all.take(all.len() as int) =~= all);
    (names, counts)
}

/// The album tags that the first `k` tracks carry, in track order.
pub open spec fn present_tags(tags: Seq<Option<String>>, k: int) -> Seq<Seq<char>>
    decreases k,
{
    if k <= 0 {
        seq![]
    } else {
        match tags[k - 1] {
            Some(t) => present_tags(tags, k - 1).push(t@),
            None => present_tags(tags, k - 1),
        }
    }
}

/// Title `m` is the one chosen: no title occurs more often, and every title
/// that first occurs after it occurs less often.
pub open spec fn is_chosen_title(titles: Seq<Seq<char>>, all: Seq<Seq<char>>, m: int) -> bool {
    &&& 0 <= m < titles.len()
    &&& forall|i: int| 0 <= i < titles.len() ==> count(all, #[trigger] titles[i]) <= count(all, titles[m])
    &&& forall|i: int| m < i < titles.len() ==> count(all, #[trigger] titles[i]) < count(all, titles[m])
}

/// The title of a release: the one given in its manifest; else the album
/// tag that most of its tracks carry (of those equally frequent, the one
/// that first occurs last); else the name of its directory.
pub fn release_title(manifest_title: Option<String>, album_tags: &Vec<Option<String>>, dir_name: &str) -> (title: String)
    ensures
        manifest_title matches Some(t) ==> title@ == t@,
        manifest_title is None ==> {
            let all = present_tags(album_tags@, album_tags@.len() as int);
            let titles = distinct_in_order(all);
            &&& titles.len() == 0 ==> title@ == dir_name@
            &&& titles.len() > 0 ==> exists|m: int| is_chosen_title(titles, all, m) && title@ == #[trigger] titles[m]
        },
{
    if let Some(title) = manifest_title {
        return title;
    }
    let mut present: Vec<String> = Vec::new();
    let mut k: usize = 0;
    while k < album_tags.len()
        invariant
            k <= album_tags@.len(),
            views(present@) == present_tags(album_tags@, k as int),
        decreases album_tags@.len() - k,
    {
        if let Some(tag) = &album_tags[k] {
            let ghost before = present@;
            present.push(tag.clone());
            assert(views(present@) =~= views(before).push(tag@));
        }
        k = k + 1;
    }
    let ghost all = views(present@);
    let (titles, counts) = tally(&present);
    if titles.len() == 0 {
        return String::from_str(dir_name);
    }
    let mut best: usize = 0;
    let mut i: usize = 1;
    while i < titles.len()
        invariant
            1 <= i <= titles@.len(),
            counts@.len() == titles@.len(),
            forall|x: int| 0 <= x < counts@.len() ==> #[trigger] counts@[x] == count(all, titles@[x]@),
            best < i,
            forall|x: int| 0 <= x < i ==> counts@[x] <= counts@[best as int],
            forall|x: int| best < x < i ==> counts@[x] < counts@[best as int],
        decreases titles@.len() - i,
    {
        if counts[i] >= counts[best] {
            best = i;
        }
        i = i + 1;
    }
    let ghost ts = views(titles@);
    assert forall|x: int| 0 <= x < ts.len() implies count(all, #[trigger] ts[x]) <= count(all, ts[best as int]) by {
        assert(counts@[x] == count(all, titles@[x]@));
    }
    assert forall|x: int| best < x < ts.len() implies count(all, #[trigger] ts[x]) < count(all, ts[best as int]) by {
        assert(counts@[x] == count(all, titles@[x]@));
    }
    assert(is_chosen_title(ts, all, best as int));
    titles[best].clone()
}

/// The names of all lists, in order.
pub open spec fn flat_names(lists: Seq<Vec<String>>, k: int) -> Seq<Seq<char>>
    decreases k,
{
    if k <= 0 {
        seq![]
    } else {
        flat_names(lists, k - 1) + views(lists[k - 1]@)
    }
}

pub open spec fn all_names(lists: Seq<Vec<String>>) -> Seq<Seq<char>> {
    flat_names(lists, lists.len() as int)
}

/// The indices (into `names`) of the names that occur fewer than `max`
/// times in `all`, ordered by how often they occur (most often first), and
/// those equally often by their index.
pub open spec fn is_support_order(names: Seq<Seq<char>>, all: Seq<Seq<char>>, max: int, order: Seq<int>) -> bool {
    &&& forall|a: int| 0 <= a < order.len() ==> 0 <= #[trigger] order[a] < names.len() && count(all, names[order[a]]) < max
    &&& forall|x: int| 0 <= x < names.len() && count(all, #[trigger] names[x]) < max ==> order.contains(x)
    &&& forall|a: int, b: int|
        0 <= a < b < order.len() ==> count(all, names[#[trigger] order[a]]) > count(all, names[#[trigger] order[b]])
            || (count(all, names[order[a]]) == count(all, names[order[b]]) && order[a] < order[b])
}

/// The highest count of any of `names` in `all` (0 where there are none).
pub open spec fn is_max_count(names: Seq<Seq<char>>, all: Seq<Seq<char>>, max: int) -> bool {
    &&& forall|x: int| 0 <= x < names.len() ==> count(all, #[trigger] names[x]) <= max
    &&& names.len() == 0 ==> max == 0
    &&& names.len() > 0 ==> exists|x: int| 0 <= x < names.len() && count(all, #[trigger] names[x]) == max
}

/// The names that occur exactly `max` times, in order.
pub open spec fn names_with_count(names: Seq<Seq<char>>, all: Seq<Seq<char>>, max: int, k: int) -> Seq<Seq<char>>
    decreases k,
{
    if k <= 0 {
        seq![]
    } else if count(all, names[k - 1]) == max {
        names_with_count(names, all, max, k - 1).push(names[k - 1])
    } else {
        names_with_count(names, all, max, k - 1)
    }
}

/// The main and the support artist names of a release, where the
/// manifest names no release artists and no track has an album artist tag:
/// the artists named on the most tracks (counting each naming) are the main
/// artists, in the order in which they first occur; the others are support
/// artists, those named more often first, and those named equally often in
/// the order in which they first occur.
pub open spec fn counted_artists(all: Seq<Seq<char>>, main: Seq<Seq<char>>, support: Seq<Seq<char>>) -> bool {
    let names = distinct_in_order(all);
    exists|max: int, order: Seq<int>|
        #![trigger is_max_count(names, all, max), is_support_order(names, all, max, order)]
        is_max_count(names, all, max) && is_support_order(names, all, max, order) && main == names_with_count(
            names,
            all,
            max,
            names.len() as int,
        ) && support == order.map_values(|x: int| names[x])
}

/// The main and support artist names of a release: the release artists of
/// its manifest, if it names any, else the album artists of its tracks
/// (each once, in order of first occurrence), if any track has them; in
/// both cases the other artists of its tracks are support artists (each
/// once, in order of first occurrence). Where neither gives main artists,
/// they are counted from the artists of its tracks (`counted_artists`).
pub open spec fn spec_release_artists(
    manifest_artists: Seq<Seq<char>>,
    album_artists: Seq<Seq<char>>,
    track_artists: Seq<Seq<char>>,
    main: Seq<Seq<char>>,
    support: Seq<Seq<char>>,
) -> bool {
    if manifest_artists.len() > 0 {
        main == manifest_artists && support == collect_new(track_artists, manifest_artists, track_artists.len() as int)
    } else if album_artists.len() > 0 {
        let m = distinct_in_order(album_artists);
        main == m && support == collect_new(track_artists, m, track_artists.len() as int)
    } else {
        counted_artists(track_artists, main, support)
    }
}

/// All names of all lists, in order.
fn flatten(lists: &Vec<Vec<String>>) -> (flat: Vec<String>)
    ensures
        views(flat@) == all_names(lists@),
{
    let mut flat: Vec<String> = Vec::new();
    let mut k: usize = 0;
    while k < lists.len()
        invariant
            k <= lists@.len(),
            views(flat@) == flat_names(lists@, k as int),
        decreases lists@.len() - k,
    {
        let list = &lists[k];
        let ghost start = views(flat@);
        let mut j: usize = 0;
        while j < list.len()
            invariant
                j <= list@.len(),
                views(flat@) == start + views(list@.take(j as int)),
            decreases list@.len() - j,
        {
            let ghost before = flat@;
            flat.push(list[j].clone());
            assert(views(flat@) =~= views(before).push(list@[j as int]@));
            assert(views(list@.take(j + 1)) =~= views(list@.take(j as int)).push(list@[j as int]@));
            j = j + 1;
        }
        assert(list@.take(list@.len() as int) =~= list@);
        k = k + 1;
    }
    flat
}

/// The items not in `excluded`, each once, in order of first occurrence.
fn collect_new_names(items: &Vec<String>, excluded: &Vec<String>) -> (collected: Vec<String>)
    ensures
        views(collected@) == collect_new(views(items@), views(excluded@), items@.len() as int),
{
    let ghost all = views(items@);
    let ghost ex = views(excluded@);
    let mut collected: Vec<String> = Vec::new();
    let mut k: usize = 0;
    while k < items.len()
        invariant
            k <= items@.len(),
            all == views(items@),
            ex == views(excluded@),
            views(collected@) == collect_new(all, ex, k as int),
        decreases items@.len() - k,
    {
        let item = items[k].as_str();
        assert(all[k as int] == item@);
        if !contains_name(excluded, item) && !contains_name(&collected, item) {
            let ghost before = collected@;
            collected.push(String::from_str(item));
            assert(views(collected@) =~= views(before).push(item@));
        }
        k = k + 1;
    }
    collected
}

fn contains_name(names: &Vec<String>, name: &str) -> (b: bool)
    ensures
        b == views(names@).contains(name@),
{
    let mut i: usize = 0;
    while i < names.len()
        invariant
            i <= names@.len(),
            forall|j: int| 0 <= j < i ==> views(names@)[j] != name@,
        decreases names@.len() - i,
    {
        if str_equal(names[i].as_str(), name) {
            assert(views(names@)[i as int] == name@);
            return true;
        }
        i = i + 1;
    }
    false
}

/// Sorted by count, most first, equal counts by index.
pub open spec fn count_sorted(counts: Seq<usize>, order: Seq<usize>) -> bool {
    forall|a: int, b: int|
        0 <= a < b < order.len() ==> counts[#[trigger] order[a] as int] > counts[#[trigger] order[b] as int] || (
        counts[order[a] as int] == counts[order[b] as int] && order[a] < order[b])
}

/// The main and support artist names counted from the artists of the
/// tracks (`counted_artists`).
fn count_artists(track_names: &Vec<String>) -> (result: (Vec<String>, Vec<String>))
    ensures
        counted_artists(views(track_names@), views(result.0@), views(result.1@)),
{
    let ghost all = views(track_names@);
    let (names, counts) = tally(track_names);
    let ghost ns = views(names@);
    let n = names.len();
    let mut max: usize = 0;
    let mut arg: usize = 0;
    let mut i: usize = 0;
    while i < n
        invariant
            i <= n,
            n == names@.len(),
            counts@.len() == n,
            forall|x: int| 0 <= x < i ==> counts@[x] <= max,
            i > 0 ==> arg < i && counts@[arg as int] == max,
            i == 0 ==> max == 0,
        decreases n - i,
    {
        if counts[i] > max || i == 0 {
            max = counts[i];
            arg = i;
        }
        i = i + 1;
    }
    proof {
        assert forall|x: int| 0 <= x < ns.len() implies count(all, #[trigger] ns[x]) <= max by {
            assert(counts@[x] == count(all, names@[x]@));
        }
        if n > 0 {
            assert(counts@[arg as int] == count(all, names@[arg as int]@));
            assert(count(all, ns[arg as int]) == max);
        }
        assert(is_max_count(ns, all, max as int));
    }
    let mut main: Vec<String> = Vec::new();
    let mut order: Vec<usize> = Vec::new();
    let mut i: usize = 0;
    while i < n
        invariant
            i <= n,
            n == names@.len(),
            ns == views(names@),
            counts@.len() == n,
            forall|x: int| 0 <= x < n ==> #[trigger] counts@[x] == count(all, names@[x]@),
            views(main@) == names_with_count(ns, all, max as int, i as int),
            forall|a: int| 0 <= a < order@.len() ==> #[trigger] order@[a] < i && counts@[order@[a] as int] < max,
            forall|x: int| 0 <= x < i && counts@[x] < max ==> #[trigger] order@.contains(x as usize),
            count_sorted(counts@, order@),
        decreases n - i,
    {
        assert(counts@[i as int] == count(all, ns[i as int]));
        if counts[i] == max {
            let ghost before = main@;
            main.push(names[i].clone());
            assert(views(main@) =~= views(before).push(ns[i as int]));
        } else if counts[i] < max {
            let c = counts[i];
            let mut p: usize = 0;
            while p < order.len() && counts[order[p]] >= c
                invariant
                    p <= order@.len(),
                    counts@.len() == n,
                    forall|a: int| 0 <= a < order@.len() ==> #[trigger] order@[a] < i,
                    i < n,
                    forall|a: int| 0 <= a < p ==> counts@[#[trigger] order@[a] as int] >= c,
                decreases order@.len() - p,
            {
                p = p + 1;
            }
            let ghost before = order@;
            order.insert(p, i);
            proof {
                let o = order@;
                assert(o =~= before.insert(p as int, i));
                assert forall|a: int| 0 <= a < o.len() implies #[trigger] o[a] < i + 1 && counts@[o[a] as int] < max by {
                    if a < p {
                        assert(o[a] == before[a]);
                    } else if a > p {
                        assert(o[a] == before[a - 1]);
                    }
                }
                assert forall|x: int| 0 <= x < i + 1 && counts@[x] < max implies #[trigger] o.contains(x as usize) by {
                    if x < i {
                        assert(before.contains(x as usize));
                        let w = choose|w: int| 0 <= w < before.len() && before[w] == x as usize;
                        if w < p {
                            assert(o[w] == x as usize);
                        } else {
                            assert(o[w + 1] == x as usize);
                        }
                    } else {
                        assert(o[p as int] == i);
                    }
                }
                assert forall|a: int, b: int| 0 <= a < b < o.len() implies counts@[#[trigger] o[a] as int] > counts@[#[trigger] o[b] as int] || (
                counts@[o[a] as int] == counts@[o[b] as int] && o[a] < o[b]) by {
                    if b < p {
                        assert(o[a] == before[a] && o[b] == before[b]);
                    } else if b == p {
                        assert(o[a] == before[a]);
                    } else if a < p {
                        assert(o[a] == before[a] && o[b] == before[b - 1]);
                    } else if a == p {
                        assert(o[b] == before[b - 1]);
                        assert(counts@[before[p as int] as int] < c);
                        if b - 1 > p {
                            assert(counts@[before[p as int] as int] >= counts@[before[b - 1] as int]);
                        }
                    } else {
                        assert(o[a] == before[a - 1] && o[b] == before[b - 1]);
                    }
                }
            }
        }
        i = i + 1;
    }
    let mut support: Vec<String> = Vec::new();
    let mut j: usize = 0;
    while j < order.len()
        invariant
            j <= order@.len(),
            n == names@.len(),
            forall|a: int| 0 <= a < order@.len() ==> #[trigger] order@[a] < n,
            views(support@) == order@.take(j as int).map_values(|x: usize| ns[x as int]),
            ns == views(names@),
        decreases order@.len() - j,
    {
        let ghost before = support@;
        support.push(names[order[j]].clone());
        assert(views(support@) =~= views(before).push(ns[order@[j as int] as int]));
        assert(order@.take(j + 1).map_values(|x: usize| ns[x as int]) =~= order@.take(j as int).map_values(
            |x: usize| ns[x as int],
        ).push(ns[order@[j as int] as int]));
        j = j + 1;
    }
    proof {
        let oi = order@.map_values(|x: usize| x as int);
        assert(order@.take(order@.len() as int) =~= order@);
        assert(views(support@) =~= oi.map_values(|x: int| ns[x]));
        assert forall|a: int| 0 <= a < oi.len() implies 0 <= #[trigger] oi[a] < ns.len() && count(all, ns[oi[a]]) < max by {
            assert(counts@[order@[a] as int] == count(all, names@[order@[a] as int]@));
        }
        assert forall|x: int| 0 <= x < ns.len() && count(all, #[trigger] ns[x]) < max implies oi.contains(x) by {
            assert(counts@[x] == count(all, names@[x]@));
            assert(order@.contains(x as usize));
            let w = choose|w: int| 0 <= w < order@.len() && order@[w] == x as usize;
            assert(oi[w] == x);
        }
        assert forall|a: int, b: int| 0 <= a < b < oi.len() implies count(all, ns[#[trigger] oi[a]]) > count(all, ns[#[trigger] oi[b]])
            || (count(all, ns[oi[a]]) == count(all, ns[oi[b]]) && oi[a] < oi[b]) by {
            assert(counts@[order@[a] as int] == count(all, names@[order@[a] as int]@));
            assert(counts@[order@[b] as int] == count(all, names@[order@[b] as int]@));
        }
        assert(is_support_order(ns, all, max as int, oi));
        assert(views(main@) == names_with_count(ns, all, max as int, ns.len() as int));
    }
    (main, support)
}

/// The main and support artist names of a release (`spec_release_artists`),
/// from the release artists of its manifest, the album artist tags of its
/// tracks, and the artist tags of its tracks.
pub fn release_artists_to_map(
    manifest_artists: &Vec<String>,
    track_album_artists: &Vec<Vec<String>>,
    track_artists: &Vec<Vec<String>>,
) -> (result: (Vec<String>, Vec<String>))
    ensures
        spec_release_artists(
            views(manifest_artists@),
            all_names(track_album_artists@),
            all_names(track_artists@),
            views(result.0@),
            views(result.1@),
        ),
{
    let track_names = flatten(track_artists);
    if manifest_artists.len() > 0 {
        let mut main: Vec<String> = Vec::new();
        let mut k: usize = 0;
        while k < manifest_artists.len()
            invariant
                k <= manifest_artists@.len(),
                views(main@) == views(manifest_artists@.take(k as int)),
            decreases manifest_artists@.len() - k,
        {
            let ghost before = main@;
            main.push(manifest_artists[k].clone());
            assert(views(main@) =~= views(before).push(manifest_artists@[k as int]@));
            assert(views(manifest_artists@.take(k + 1)) =~= views(manifest_artists@.take(k as int)).push(
                manifest_artists@[k as int]@,
            ));
            k = k + 1;
        }
        assert(manifest_artists@.take(manifest_artists@.len() as int) =~= manifest_artists@);
        let support = collect_new_names(&track_names, &main);
        return (main, support);
    }
    let album_names = flatten(track_album_artists);
    if album_names.len() > 0 {
        let no_names: Vec<String> = Vec::new();
        assert(views(no_names@) =~= Seq::<Seq<char>>::empty());
        let main = collect_new_names(&album_names, &no_names);
        let support = collect_new_names(&track_names, &main);
        return (main, support);
    }
    count_artists(&track_names)
}

proof fn lemma_collect_new_excludes(items: Seq<Seq<char>>, excluded: Seq<Seq<char>>, k: int)
    requires
        0 <= k <= items.len(),
    ensures
        forall|i: int| 0 <= i < collect_new(items, excluded, k).len() ==> !excluded.contains(#[trigger] collect_new(items, excluded, k)[i]),
    decreases k,
{
    if k > 0 {
        lemma_collect_new_excludes(items, excluded, k - 1);
        let acc = collect_new(items, excluded, k - 1);
        let c = collect_new(items, excluded, k);
        assert forall|i: int| 0 <= i < c.len() implies !excluded.contains(#[trigger] c[i]) by {
            if i < acc.len() {
                assert(c[i] == acc[i]);
            }
        }
    }
}

proof fn lemma_names_with_count_have_it(names: Seq<Seq<char>>, all: Seq<Seq<char>>, max: int, k: int)
    requires
        0 <= k <= names.len(),
    ensures
        forall|i: int| 0 <= i < names_with_count(names, all, max, k).len() ==> count(all, #[trigger] names_with_count(names, all, max, k)[i]) == max,
    decreases k,
{
    if k > 0 {
        lemma_names_with_count_have_it(names, all, max, k - 1);
        let acc = names_with_count(names, all, max, k - 1);
        let c = names_with_count(names, all, max, k);
        assert forall|i: int| 0 <= i < c.len() implies count(all, #[trigger] c[i]) == max by {
            if i < acc.len() {
                assert(c[i] == acc[i]);
            }
        }
    }
}

/// A release's support artists hold no main artist, and none twice.
pub proof fn lemma_support_artists_apart_from_main(
    manifest_artists: Seq<Seq<char>>,
    album_artists: Seq<Seq<char>>,
    track_artists: Seq<Seq<char>>,
    main: Seq<Seq<char>>,
    support: Seq<Seq<char>>,
)
    requires
        spec_release_artists(manifest_artists, album_artists, track_artists, main, support),
    ensures
        forall|i: int, j: int| 0 <= i < support.len() && 0 <= j < main.len() ==> support[i] != main[j],
        forall|i: int, j: int| 0 <= i < j < support.len() ==> support[i] != support[j],
{
    let n = track_artists.len() as int;
    if manifest_artists.len() > 0 || album_artists.len() > 0 {
        lemma_collect_new_excludes(track_artists, main, n);
        lemma_collect_new_distinct(track_artists, main, n);
        assert forall|i: int, j: int| 0 <= i < support.len() && 0 <= j < main.len() implies support[i] != main[j] by {
            assert(!main.contains(support[i]));
        }
    } else {
        let names = distinct_in_order(track_artists);
        let (max, order) = choose|max: int, order: Seq<int>|
            is_max_count(names, track_artists, max) && is_support_order(names, track_artists, max, order) && main
                == names_with_count(names, track_artists, max, names.len() as int) && support == order.map_values(
                |x: int| names[x],
            );
        lemma_names_with_count_have_it(names, track_artists, max, names.len() as int);
        assert forall|i: int, j: int| 0 <= i < support.len() && 0 <= j < main.len() implies support[i] != main[j] by {
            assert(support[i] == names[order[i]]);
            assert(count(track_artists, names[order[i]]) < max);
            assert(count(track_artists, main[j]) == max);
        }
        lemma_distinct_in_order_distinct(track_artists, track_artists.len() as int);
        assert forall|i: int, j: int| 0 <= i < j < support.len() implies support[i] != support[j] by {
            assert(support[i] == names[order[i]] && support[j] == names[order[j]]);
            assert(order[i] != order[j]);
        }
    }
}

/// The title of a track directory's track: the one given in its manifest;
/// else the album tag of its audio file; else the file's name without its
/// extension.
pub fn track_title(manifest_title: Option<String>, album_tag: Option<String>, file_stem: &str) -> (title: String)
    ensures
        title@ == match (manifest_title, album_tag) {
            (Some(t), _) => t@,
            (None, Some(a)) => a@,
            (None, None) => file_stem@,
        },
{
    match manifest_title {
        Some(title) => title,
        None => match album_tag {
            Some(album) => album,
            None => file_stem.to_string(),
        },
    }
}


/// The images of a directory that are not its cover, in their order.
pub open spec fn images_besides_cover(images: Seq<Seq<char>>, cover: Option<Seq<char>>) -> Seq<Seq<char>>
    decreases images.len(),
{
    if images.len() == 0 {
        seq![]
    } else {
        let rest = images_besides_cover(images.drop_last(), cover);
        if cover == Some(images.last()) {
            rest
        } else {
            rest.push(images.last())
        }
    }
}

/// The files that a release or track directory offers as extras: its
/// images other than the cover (which would be offered twice otherwise),
/// then its other files, each list in its order.
pub fn extra_file_paths(images: &Vec<String>, cover: Option<&str>, other_files: &Vec<String>) -> (extras: Vec<String>)
    ensures
        views(extras@) == images_besides_cover(views(images@), match cover {
            Some(c) => Some(c@),
            None => None,
        }) + views(other_files@),
{
    let ghost cover_view = match cover {
        Some(c) => Some(c@),
        None => None::<Seq<char>>,
    };
    let mut extras: Vec<String> = Vec::new();
    let mut i: usize = 0;
    while i < images.len()
        invariant
            i <= images.len(),
            views(extras@) == images_besides_cover(views(images@).take(i as int), cover_view),
            cover_view == match cover {
                Some(c) => Some(c@),
                None => None::<Seq<char>>,
            },
        decreases images.len() - i,
    {
        let is_cover = match cover {
            Some(c) => str_equal(images[i].as_str(), c),
            None => false,
        };
        proof {
            assert(views(images@).take(i + 1).drop_last() =~= views(images@).take(i as int));
        }
        if !is_cover {
            let ghost before = extras@;
            extras.push(images[i].clone());
            assert(views(extras@) =~= views(before).push(images@[i as int]@));
        }
        i = i + 1;
    }
    assert(views(images@).take(images.len() as int) =~= views(images@));
    let ghost head = views(extras@);
    let mut j: usize = 0;
    while j < other_files.len()
        invariant
            j <= other_files.len(),
            views(extras@) == head + views(other_files@).take(j as int),
        decreases other_files.len() - j,
    {
        let ghost before = extras@;
        extras.push(other_files[j].clone());
        assert(views(extras@) =~= views(before).push(other_files@[j as int]@));
        assert(views(other_files@).take(j + 1) =~= views(other_files@).take(j as int).push(other_files@[j as int]@));
        j = j + 1;
    }
    assert(views(other_files@).take(other_files.len() as int) =~= views(other_files@));
    extras
}

/// A file offered for download beside the audio of a release or track:
/// where it lies in the catalog, and the name it is offered under.
pub struct Extra {
    pub path: String,
    pub sanitized_filename: String,
}

impl Extra {
    /// The extra for the file at `path` (relative to the catalog) whose
    /// name is `file_name`: it is offered under that name sanitized for
    /// use as a file name, which leaves a plain name as it is.
    pub fn new(path: String, file_name: &str) -> (extra: Extra)
        ensures
            extra.path == path,
            is_subsequence(extra.sanitized_filename@, file_name@),
            is_filename_safe(extra.sanitized_filename@),
            is_plain_filename(file_name@) ==> extra.sanitized_filename@ == file_name@,
    {
        let sanitized_filename = sanitize(file_name);
        Extra { path, sanitized_filename }
    }
}
} // verus!
