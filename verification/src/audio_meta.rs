use vstd::prelude::*;

use crate::text::{
    before_first, decimal_string, is_ascii_digit, lemma_decimal_string_digits,
    lemma_find_char_after_prefix, lemma_parse_decimal_round_trip, lemma_trim_end_append,
    lemma_trim_start_unchanged, parse_u32, parse_u32_str, str_equal, trim, trim_end, trim_end_str,
    trim_str,
};

verus! {

/// The number that a track number tag denotes: the text is trimmed, only
/// the part before a first '/' is considered (so that "01/07" gives 1),
/// and that part, with trailing white space removed, must parse as a `u32`.
pub open spec fn spec_track_number(s: Seq<char>) -> Option<u32> {
    parse_u32(trim_end(before_first(trim(s), '/')))
}

/// The value of a tag after trimming, unless nothing is left.
pub open spec fn spec_trim_and_reject_empty(s: Seq<char>) -> Option<Seq<char>> {
    if trim(s).len() == 0 {
        None
    } else {
        Some(trim(s))
    }
}

/// Sometimes a tag storing the track number contains only the track number
/// ("01") and sometimes also the total track count ("01/07"). Only the track
/// number is extracted. Nonsense like "01/boom" is accepted, giving 1.
pub fn parse_track_number_ignoring_total_tracks(string: &str) -> (number: Option<u32>)
    ensures
        number == spec_track_number(string@),
{
    let trimmed = trim_str(string);
    let n = trimmed.unicode_len();
    let mut i: usize = 0;
    while i < n && trimmed.get_char(i) != '/'
        invariant
            n == trimmed@.len(),
            i <= n,
            forall|j: int| 0 <= j < i ==> trimmed@[j] != '/',
        decreases n - i,
    {
        i = i + 1;
    }
    proof {
        crate::text::lemma_find_char(trimmed@, '/');
        if i < n {
            assert(trimmed@[i as int] == '/');
        }
    }
    let first_token = trimmed.substring_char(0, i);
    assert(first_token@ =~= before_first(trimmed@, '/')) by {
        match crate::text::find_char(trimmed@, '/') {
            Some(k) => {
                assert(k == i);
            },
            None => {
                assert(i == n);
            },
        }
    }
    parse_u32_str(trim_end_str(first_token))
}

/// Returns `None` if the string is empty or all white space, otherwise the
/// trimmed string.
pub fn trim_and_reject_empty(string: &str) -> (r: Option<String>)
    ensures
        r matches Some(s) ==> spec_trim_and_reject_empty(string@) == Some(s@),
        r is None ==> spec_trim_and_reject_empty(string@) is None,
{
    let trimmed = trim_str(string);
    if trimmed.unicode_len() == 0 {
        None
    } else {
        Some(String::from_str(trimmed))
    }
}

/// The user comments of an audio file's metadata: a map from key to value,
/// in which no key occurs twice.
pub struct UserComments {
    entries: Vec<(String, String)>,
}

pub open spec fn keys_distinct(entries: Seq<(Seq<char>, Seq<char>)>) -> bool {
    forall|i: int, j: int|
        0 <= i < entries.len() && 0 <= j < entries.len() && i != j ==> #[trigger] entries[i].0
            != #[trigger] entries[j].0
}

/// The value stored for `key` in a sequence of entries with distinct keys.
pub open spec fn lookup(entries: Seq<(Seq<char>, Seq<char>)>, key: Seq<char>) -> Option<Seq<char>> {
    if exists|i: int| 0 <= i < entries.len() && #[trigger] entries[i].0 == key {
        let i = choose|i: int| 0 <= i < entries.len() && #[trigger] entries[i].0 == key;
        Some(entries[i].1)
    } else {
        None
    }
}

impl UserComments {
    pub closed spec fn entries(&self) -> Seq<(Seq<char>, Seq<char>)> {
        self.entries@.map_values(|e: (String, String)| (e.0@, e.1@))
    }

    #[verifier::type_invariant]
    closed spec fn well_formed(&self) -> bool {
        keys_distinct(self.entries())
    }

    /// The value stored under `key`, if any.
    pub closed spec fn spec_get(&self, key: Seq<char>) -> Option<Seq<char>> {
        lookup(self.entries(), key)
    }

    /// An empty set of user comments.
    pub fn new() -> (c: UserComments)
        ensures
            forall|k: Seq<char>| c.spec_get(k) is None,
    {
        let c = UserComments { entries: Vec::new() };
        assert(c.entries() =~= Seq::empty());
        c
    }

    fn index_of(&self, key: &str) -> (r: Option<usize>)
        ensures
            r matches Some(i) ==> i < self.entries().len() && self.entries()[i as int].0 == key@,
            r is None ==> forall|i: int|
                0 <= i < self.entries().len() ==> #[trigger] self.entries()[i].0 != key@,
    {
        let mut i: usize = 0;
        while i < self.entries.len()
            invariant
                i <= self.entries@.len(),
                self.entries().len() == self.entries@.len(),
                forall|j: int| 0 <= j < i ==> #[trigger] self.entries()[j].0 != key@,
            decreases self.entries@.len() - i,
        {
            if str_equal(self.entries[i].0.as_str(), key) {
                return Some(i);
            }
            i = i + 1;
        }
        None
    }

    /// Stores `value` under `key`, replacing a value stored there before.
    pub fn insert(&mut self, key: String, value: String)
        ensures
            final(self).spec_get(key@) == Some(value@),
            forall|k: Seq<char>| k != key@ ==> final(self).spec_get(k) == old(self).spec_get(k),
    {
        proof {
            use_type_invariant(&*self);
        }
        let ghost before = self.entries();
        match self.index_of(key.as_str()) {
            Some(i) => {
                let mut entries: Vec<(String, String)> = Vec::new();
                std::mem::swap(&mut entries, &mut self.entries);
                entries.set(i, (key, value));
                proof {
                    let after = entries@.map_values(|e: (String, String)| (e.0@, e.1@));
                    assert(after =~= before.update(i as int, (key@, value@)));
                    assert(keys_distinct(after)) by {
                        assert forall|a: int, b: int|
                            0 <= a < after.len() && 0 <= b < after.len() && a != b implies #[trigger] after[a].0
                            != #[trigger] after[b].0 by {
                            assert(before[a].0 != before[b].0);
                        }
                    }
                }
                self.entries = entries;
                assert(self.entries() =~= before.update(i as int, (key@, value@)));
                assert forall|k: Seq<char>| k != key@ implies self.spec_get(k) == lookup(before, k) by {
                    if exists|j: int| 0 <= j < before.len() && #[trigger] before[j].0 == k {
                        let j = choose|j: int| 0 <= j < before.len() && #[trigger] before[j].0 == k;
                        assert(self.entries()[j].0 == k);
                    }
                    if exists|j: int| 0 <= j < self.entries().len() && #[trigger] self.entries()[j].0 == k {
                        let j = choose|j: int| 0 <= j < self.entries().len() && #[trigger] self.entries()[j].0 == k;
                        assert(before[j].0 == k);
                    }
                }
                assert(self.entries()[i as int].0 == key@);
            },
            None => {
                let mut entries: Vec<(String, String)> = Vec::new();
                std::mem::swap(&mut entries, &mut self.entries);
                entries.push((key, value));
                proof {
                    let after = entries@.map_values(|e: (String, String)| (e.0@, e.1@));
                    assert(after =~= before.push((key@, value@)));
                    assert(keys_distinct(after)) by {
                        assert forall|a: int, b: int|
                            0 <= a < after.len() && 0 <= b < after.len() && a != b implies #[trigger] after[a].0
                            != #[trigger] after[b].0 by {
                            if a < before.len() && b < before.len() {
                                assert(before[a].0 != before[b].0);
                            } else if a < before.len() {
                                assert(before[a].0 != key@);
                            } else {
                                assert(before[b].0 != key@);
                            }
                        }
                    }
                }
                self.entries = entries;
                assert(self.entries() =~= before.push((key@, value@)));
                assert forall|k: Seq<char>| k != key@ implies self.spec_get(k) == lookup(before, k) by {
                    if exists|j: int| 0 <= j < before.len() && #[trigger] before[j].0 == k {
                        let j = choose|j: int| 0 <= j < before.len() && #[trigger] before[j].0 == k;
                        assert(self.entries()[j].0 == k);
                    }
                    if exists|j: int| 0 <= j < self.entries().len() && #[trigger] self.entries()[j].0 == k {
                        let j = choose|j: int| 0 <= j < self.entries().len() && #[trigger] self.entries()[j].0 == k;
                        assert(j < before.len());
                        assert(before[j].0 == k);
                    }
                }
                assert(self.entries()[before.len() as int].0 == key@);
            },
        }
    }

    /// The value stored under `key`, if any.
    pub fn get(&self, key: &str) -> (r: Option<&String>)
        ensures
            r matches Some(v) ==> self.spec_get(key@) == Some(v@),
            r is None ==> self.spec_get(key@) is None,
    {
        proof {
            use_type_invariant(self);
        }
        match self.index_of(key) {
            Some(i) => Some(&self.entries[i].1),
            None => None,
        }
    }
}

/// The single value stored under `key`, trimmed, unless it is blank.
pub open spec fn spec_extract_single(key: Seq<char>, comments: UserComments) -> Option<Seq<char>> {
    match comments.spec_get(key) {
        Some(value) => spec_trim_and_reject_empty(value),
        None => None,
    }
}

/// The trimmed value stored under `key` as a one-element list (the
/// comment format supports a single value per key), or an empty list when
/// there is none or it is blank.
pub fn extract_multiple(key: &str, user_comments: &UserComments) -> (values: Vec<String>)
    ensures
        spec_extract_single(key@, *user_comments) matches Some(v) ==> values@.len() == 1
            && values@[0]@ == v,
        spec_extract_single(key@, *user_comments) is None ==> values@.len() == 0,
{
    match user_comments.get(key) {
        Some(value) => match trim_and_reject_empty(value.as_str()) {
            Some(value) => vec![value],
            None => Vec::new(),
        },
        None => Vec::new(),
    }
}

/// Looks up several alternative keys in order and returns the trimmed value
/// of the first under which a non-blank value is stored (as a one-element
/// list), or an empty list when there is none.
pub fn extract_multiple_alternatives(keys: &[&str], user_comments: &UserComments) -> (values: Vec<String>)
    ensures
        values@.len() <= 1,
        values@.len() == 1 <==> exists|i: int|
            0 <= i < keys@.len() && #[trigger] spec_extract_single(keys@[i]@, *user_comments) is Some,
        values@.len() == 1 ==> exists|i: int|
            0 <= i < keys@.len() && spec_extract_single(keys@[i]@, *user_comments) == Some(values@[0]@)
                && forall|j: int| 0 <= j < i ==> #[trigger] spec_extract_single(keys@[j]@, *user_comments) is None,
{
    let mut k: usize = 0;
    while k < keys.len()
        invariant
            k <= keys@.len(),
            forall|j: int| 0 <= j < k ==> #[trigger] spec_extract_single(keys@[j]@, *user_comments) is None,
        decreases keys@.len() - k,
    {
        if let Some(value) = user_comments.get(keys[k]) {
            if let Some(value) = trim_and_reject_empty(value.as_str()) {
                assert(spec_extract_single(keys@[k as int]@, *user_comments) is Some);
                return vec![value];
            }
        }
        k = k + 1;
    }
    Vec::new()
}

/// The trimmed value stored under `key`, unless there is none or it is blank.
pub fn extract_single(key: &str, user_comments: &UserComments) -> (value: Option<String>)
    ensures
        value matches Some(v) ==> spec_extract_single(key@, *user_comments) == Some(v@),
        value is None ==> spec_extract_single(key@, *user_comments) is None,
{
    match user_comments.get(key) {
        Some(value) => trim_and_reject_empty(value.as_str()),
        None => None,
    }
}

/// The track number stored under the "tracknumber" user comment, if any.
pub fn extract_track_number(user_comments: &UserComments) -> (number: Option<u32>)
    ensures
        user_comments.spec_get("tracknumber"@) matches Some(v) ==> number == spec_track_number(v),
        user_comments.spec_get("tracknumber"@) is None ==> number is None,
{
    match user_comments.get("tracknumber") {
        Some(track_number) => parse_track_number_ignoring_total_tracks(track_number.as_str()),
        None => None,
    }
}


/// A track number tag that gives the number followed by a slash and
/// anything else (such as the total track count, "01/07") is read as that
/// number.
pub proof fn lemma_track_number_ignores_total(n: u32, rest: Seq<char>)
    ensures
        spec_track_number(crate::text::decimal_string(n as nat) + "/"@ + rest) == Some(n),
{
    reveal_strlit("/");
    let d = decimal_string(n as nat);
    lemma_parse_decimal_round_trip(n);
    lemma_decimal_string_digits(n as nat);
    let x = d.push('/');
    assert(d + "/"@ + rest =~= x + rest);
    let s = x + rest;
    assert(s[0] == d[0]);
    assert(is_ascii_digit(d[0]));
    lemma_trim_start_unchanged(s);
    lemma_trim_end_append(x, rest);
    let t = trim(s);
    assert(t == x + trim_end(rest));
    assert forall|i: int| 0 <= i < d.len() implies d[i] != '/' by {
        assert(is_ascii_digit(d[i]));
    }
    lemma_find_char_after_prefix(d, '/', trim_end(rest));
    assert(before_first(t, '/') =~= d);
    assert(is_ascii_digit(d.last()));
    assert(trim_end(d) == d);
}

/// A value that survives trimming has neither leading nor trailing white
/// space, and nothing is returned only for blank values.
pub proof fn lemma_trim_and_reject_empty(s: Seq<char>)
    ensures
        spec_trim_and_reject_empty(s) matches Some(t) ==> t.len() > 0 && !crate::text::is_white_space(t[0])
            && !crate::text::is_white_space(t.last()),
        spec_trim_and_reject_empty(s) is None <==> trim(s).len() == 0,
{
    crate::text::lemma_trim_no_surrounding_space(s);
}

} // verus!
