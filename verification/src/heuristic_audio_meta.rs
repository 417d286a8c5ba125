use vstd::prelude::*;

use crate::text::{
    all_ascii_digits, decimal_value, is_ascii_digit, is_white_space, parse_u32, parse_u32_str,
    trim_start, trim_start_str,
};

verus! {

/// A pattern separating track number and title in a filename.
#[derive(Clone, Copy, Debug, PartialEq, Eq, Structural)]
pub enum SeparatorPattern {
    /// "01:( )Example"
    ColonSpace,
    /// "01.( )Example"
    DotSpace,
    /// "01 Example"
    Space,
    /// "01( )-( )Example"
    SpaceDashSpace,
    /// "01Example"
    Unseparated,
}

/// Limited metadata (track number and title) determined from the name of an
/// audio file, e.g. "01 - Foo.mp3" gives the track number 1 and the title "Foo".
#[derive(Debug)]
pub struct HeuristicAudioMeta {
    pub title: String,
    pub track_number: u32,
}

/// Tallies, for the part of each filename that follows the track number,
/// which separator pattern it starts with.
pub struct CommonSeparatorPattern {
    colon_space: usize,
    dot_space: usize,
    space: usize,
    space_dash_space: usize,
    total: usize,
    unseparated: usize,
}

/// The separator pattern that the part of a filename after the track number
/// starts with.
pub open spec fn classify(s: Seq<char>) -> SeparatorPattern {
    if s.len() > 0 && s[0] == '.' {
        SeparatorPattern::DotSpace
    } else if s.len() > 0 && s[0] == ':' {
        SeparatorPattern::ColonSpace
    } else if s.len() > 0 && is_white_space(s[0]) {
        if trim_start(s).len() > 0 && trim_start(s)[0] == '-' {
            SeparatorPattern::SpaceDashSpace
        } else {
            SeparatorPattern::Space
        }
    } else if s.len() > 0 && s[0] == '-' {
        SeparatorPattern::SpaceDashSpace
    } else {
        SeparatorPattern::Unseparated
    }
}

/// How many of `remainders` start with pattern `p`.
pub open spec fn count_pattern(remainders: Seq<Seq<char>>, p: SeparatorPattern) -> nat
    decreases remainders.len(),
{
    if remainders.len() == 0 {
        0
    } else {
        count_pattern(remainders.drop_last(), p) + if classify(remainders.last()) == p {
            1nat
        } else {
            0nat
        }
    }
}

/// How many of `total` filenames must agree on a pattern for it to be chosen:
/// all of them for 1-2 files, all but one for up to 4 files, and otherwise all
/// but two, minus one more for every ten files.
pub open spec fn agreement_threshold(total: nat) -> nat {
    if total <= 2 {
        total
    } else if total < 5 {
        (total - 1) as nat
    } else {
        (total - 2 - total / 10) as nat
    }
}

/// The first pattern (in the order colon, dot, space, dash, unseparated)
/// whose count reaches the agreement threshold; none where nothing was
/// counted, as there is no evidence at all.
pub open spec fn spec_determine(
    colon_space: nat,
    dot_space: nat,
    space: nat,
    space_dash_space: nat,
    unseparated: nat,
    total: nat,
) -> Option<SeparatorPattern> {
    let threshold = agreement_threshold(total);
    if total == 0 {
        None
    } else if colon_space >= threshold {
        Some(SeparatorPattern::ColonSpace)
    } else if dot_space >= threshold {
        Some(SeparatorPattern::DotSpace)
    } else if space >= threshold {
        Some(SeparatorPattern::Space)
    } else if space_dash_space >= threshold {
        Some(SeparatorPattern::SpaceDashSpace)
    } else if unseparated >= threshold {
        Some(SeparatorPattern::Unseparated)
    } else {
        None
    }
}

/// The pattern that a set of filename remainders agrees on, if any.
pub open spec fn common_pattern(remainders: Seq<Seq<char>>) -> Option<SeparatorPattern> {
    spec_determine(
        count_pattern(remainders, SeparatorPattern::ColonSpace),
        count_pattern(remainders, SeparatorPattern::DotSpace),
        count_pattern(remainders, SeparatorPattern::Space),
        count_pattern(remainders, SeparatorPattern::SpaceDashSpace),
        count_pattern(remainders, SeparatorPattern::Unseparated),
        remainders.len(),
    )
}

/// The title that remains when the separator is removed from the part of a
/// filename after the track number (e.g. " - Example Song" gives "Example
/// Song"); where the expected separator character is missing, only the
/// leading white space is removed.
pub open spec fn spec_trim_separator_prefix(p: SeparatorPattern, s: Seq<char>) -> Seq<char> {
    match p {
        SeparatorPattern::ColonSpace => if s.len() > 0 && s[0] == ':' {
            trim_start(s.drop_first())
        } else {
            trim_start(s)
        },
        SeparatorPattern::DotSpace => if s.len() > 0 && s[0] == '.' {
            trim_start(s.drop_first())
        } else {
            trim_start(s)
        },
        SeparatorPattern::SpaceDashSpace => if trim_start(s).len() > 0 && trim_start(s)[0] == '-' {
            trim_start(trim_start(s).drop_first())
        } else {
            trim_start(s)
        },
        SeparatorPattern::Space | SeparatorPattern::Unseparated => trim_start(s),
    }
}

impl CommonSeparatorPattern {
    #[verifier::type_invariant]
    closed spec fn counts_add_up(&self) -> bool {
        self.colon_space + self.dot_space + self.space + self.space_dash_space + self.unseparated
            == self.total
    }

    /// How many added filename remainders started with pattern `p`.
    pub closed spec fn count(&self, p: SeparatorPattern) -> nat {
        match p {
            SeparatorPattern::ColonSpace => self.colon_space as nat,
            SeparatorPattern::DotSpace => self.dot_space as nat,
            SeparatorPattern::Space => self.space as nat,
            SeparatorPattern::SpaceDashSpace => self.space_dash_space as nat,
            SeparatorPattern::Unseparated => self.unseparated as nat,
        }
    }

    /// How many filename remainders were added.
    pub closed spec fn total(&self) -> nat {
        self.total as nat
    }

    /// A tally of nothing.
    pub fn new() -> (c: CommonSeparatorPattern)
        ensures
            c.total() == 0,
            forall|p: SeparatorPattern| c.count(p) == 0,
    {
        CommonSeparatorPattern {
            colon_space: 0,
            dot_space: 0,
            space: 0,
            space_dash_space: 0,
            total: 0,
            unseparated: 0,
        }
    }

    /// Determines the pattern that `string` (the part of a filename after the
    /// track number) starts with, and counts it.
    pub fn add(&mut self, string: &str)
        requires
            old(self).total() < usize::MAX,
        ensures
            final(self).total() == old(self).total() + 1,
            forall|p: SeparatorPattern|
                #[trigger] final(self).count(p) == old(self).count(p) + if p == classify(string@) {
                    1nat
                } else {
                    0nat
                },
    {
        proof {
            use_type_invariant(&*self);
        }
        let len = string.unicode_len();
        let first = if len > 0 { Some(string.get_char(0)) } else { None };
        let mut colon_space = self.colon_space;
        let mut dot_space = self.dot_space;
        let mut space = self.space;
        let mut space_dash_space = self.space_dash_space;
        let mut unseparated = self.unseparated;
        if first == Some('.') {
            dot_space = dot_space + 1;
        } else if first == Some(':') {
            colon_space = colon_space + 1;
        } else if len > 0 && crate::text::is_whitespace(string.get_char(0)) {
            let rest = trim_start_str(string);
            if rest.unicode_len() > 0 && rest.get_char(0) == '-' {
                space_dash_space = space_dash_space + 1;
            } else {
                space = space + 1;
            }
        } else if first == Some('-') {
            space_dash_space = space_dash_space + 1;
        } else {
            unseparated = unseparated + 1;
        }
        *self = CommonSeparatorPattern {
            colon_space,
            dot_space,
            space,
            space_dash_space,
            total: self.total + 1,
            unseparated,
        };
    }

    /// The pattern that enough of the added remainders agree on, or `None`
    /// when the evidence is inconclusive.
    pub fn determine(&self) -> (p: Option<SeparatorPattern>)
        ensures
            p == spec_determine(
                self.count(SeparatorPattern::ColonSpace),
                self.count(SeparatorPattern::DotSpace),
                self.count(SeparatorPattern::Space),
                self.count(SeparatorPattern::SpaceDashSpace),
                self.count(SeparatorPattern::Unseparated),
                self.total(),
            ),
    {
        if self.total == 0 {
            return None;
        }
        let threshold = if self.total <= 2 {
            self.total
        } else if self.total < 5 {
            self.total - 1
        } else {
            self.total - 2 - self.total / 10
        };
        if self.colon_space >= threshold {
            Some(SeparatorPattern::ColonSpace)
        } else if self.dot_space >= threshold {
            Some(SeparatorPattern::DotSpace)
        } else if self.space >= threshold {
            Some(SeparatorPattern::Space)
        } else if self.space_dash_space >= threshold {
            Some(SeparatorPattern::SpaceDashSpace)
        } else if self.unseparated >= threshold {
            Some(SeparatorPattern::Unseparated)
        } else {
            None
        }
    }
}

impl SeparatorPattern {
    /// Given the part of a filename after the track number, removes the
    /// separator from its start, e.g. " - Example Song" gives "Example Song".
    pub fn trim_separator_prefix(&self, remainder: &str) -> (title: String)
        ensures
            title@ == spec_trim_separator_prefix(*self, remainder@),
    {
        let len = remainder.unicode_len();
        match self {
            SeparatorPattern::ColonSpace => {
                if len > 0 && remainder.get_char(0) == ':' {
                    let rest = remainder.substring_char(1, len);
                    assert(rest@ =~= remainder@.drop_first());
                    String::from_str(trim_start_str(rest))
                } else {
                    String::from_str(trim_start_str(remainder))
                }
            },
            SeparatorPattern::DotSpace => {
                if len > 0 && remainder.get_char(0) == '.' {
                    let rest = remainder.substring_char(1, len);
                    assert(rest@ =~= remainder@.drop_first());
                    String::from_str(trim_start_str(rest))
                } else {
                    String::from_str(trim_start_str(remainder))
                }
            },
            SeparatorPattern::SpaceDashSpace => {
                let trimmed = trim_start_str(remainder);
                let tlen = trimmed.unicode_len();
                if tlen > 0 && trimmed.get_char(0) == '-' {
                    let rest = trimmed.substring_char(1, tlen);
                    assert(rest@ =~= trimmed@.drop_first());
                    String::from_str(trim_start_str(rest))
                } else {
                    String::from_str(trimmed)
                }
            },
            SeparatorPattern::Space | SeparatorPattern::Unseparated => String::from_str(
                trim_start_str(remainder),
            ),
        }
    }
}


/// The index of the first character of `s` that is not an ASCII digit.
pub open spec fn first_non_digit(s: Seq<char>) -> Option<int>
    decreases s.len(),
{
    if s.len() == 0 {
        None
    } else if !is_ascii_digit(s[0]) {
        Some(0)
    } else {
        match first_non_digit(s.drop_first()) {
            Some(i) => Some(i + 1),
            None => None,
        }
    }
}

/// Whether a file stem starts with a track number that something follows.
pub open spec fn has_track_number(stem: Seq<char>) -> bool {
    first_non_digit(stem) matches Some(k) && k > 0
}

/// The value of the leading digits of a file stem.
pub open spec fn stem_number(stem: Seq<char>) -> nat {
    decimal_value(stem.take(first_non_digit(stem).unwrap()))
}

/// What follows the leading digits of a file stem.
pub open spec fn stem_remainder(stem: Seq<char>) -> Seq<char> {
    stem.skip(first_non_digit(stem).unwrap())
}

/// Whether, scanning the stems in order, every track number that is read
/// before the first stem without one fits in a `u32`.
pub open spec fn track_numbers_in_range(stems: Seq<Seq<char>>) -> bool {
    forall|i: int|
        0 <= i < stems.len() && (forall|j: int| 0 <= j <= i ==> #[trigger] has_track_number(stems[j]))
            ==> #[trigger] stem_number(stems[i]) <= u32::MAX
}

/// Whether the numbers are pairwise distinct and all lie in `start..start+len`,
/// i.e. in some order they are exactly `start, start + 1, ..., start + len - 1`.
pub open spec fn numbered_from(numbers: Seq<nat>, start: nat) -> bool {
    &&& forall|i: int| 0 <= i < numbers.len() ==> start <= #[trigger] numbers[i] < start + numbers.len()
    &&& forall|i: int, j: int|
        0 <= i < numbers.len() && 0 <= j < numbers.len() && i != j ==> #[trigger] numbers[i]
            != #[trigger] numbers[j]
}

pub open spec fn stem_numbers(stems: Seq<Seq<char>>) -> Seq<nat> {
    stems.map_values(|s: Seq<char>| stem_number(s))
}

pub open spec fn stem_remainders(stems: Seq<Seq<char>>) -> Seq<Seq<char>> {
    stems.map_values(|s: Seq<char>| stem_remainder(s))
}

/// The heuristic applies when every stem starts with a track number, the
/// track numbers count up one by one from 0 or 1 (in some order), and enough
/// of the remainders agree on one separator pattern.
pub open spec fn heuristic_applies(stems: Seq<Seq<char>>) -> bool {
    &&& forall|i: int| 0 <= i < stems.len() ==> #[trigger] has_track_number(stems[i])
    &&& numbered_from(stem_numbers(stems), 0) || numbered_from(stem_numbers(stems), 1)
    &&& common_pattern(stem_remainders(stems)) is Some
}

pub proof fn lemma_first_non_digit(s: Seq<char>)
    ensures
        first_non_digit(s) matches Some(k) ==> 0 <= k < s.len() && !is_ascii_digit(s[k])
            && all_ascii_digits(s.take(k)),
        first_non_digit(s) is None ==> all_ascii_digits(s),
    decreases s.len(),
{
    if s.len() > 0 && is_ascii_digit(s[0]) {
        lemma_first_non_digit(s.drop_first());
        if let Some(k) = first_non_digit(s) {
            assert forall|j: int| 0 <= j < k implies #[trigger] is_ascii_digit(s.take(k)[j]) by {
                if j > 0 {
                    assert(s.take(k)[j] == s.drop_first().take(k - 1)[j - 1]);
                }
            }
        } else {
            assert forall|j: int| 0 <= j < s.len() implies #[trigger] is_ascii_digit(s[j]) by {
                if j > 0 {
                    assert(s[j] == s.drop_first()[j - 1]);
                }
            }
        }
    }
}

/// The index of the first non-digit character of `s`, or its length.
fn split_index(s: &str) -> (k: usize)
    ensures
        k <= s@.len(),
        k < s@.len() ==> first_non_digit(s@) == Some(k as int),
        k == s@.len() ==> first_non_digit(s@) is None,
{
    let len = s.unicode_len();
    let mut k: usize = 0;
    while k < len && crate::text::is_ascii_digit_char(s.get_char(k))
        invariant
            len == s@.len(),
            k <= len,
            forall|j: int| 0 <= j < k ==> #[trigger] is_ascii_digit(s@[j]),
        decreases len - k,
    {
        k = k + 1;
    }
    proof {
        lemma_first_non_digit(s@);
        match first_non_digit(s@) {
            Some(m) => {
                assert(!is_ascii_digit(s@[m]));
                if k < len {
                    assert(is_ascii_digit(s@.take(m)[k as int]) || k >= m);
                }
                if m < k {
                    assert(is_ascii_digit(s@[m]));
                }
            },
            None => {
                if k < len {
                    assert(is_ascii_digit(s@[k as int]));
                }
            },
        }
    }
    k
}

/// Whether `numbers` are pairwise distinct and all lie in `start..start+len`.
fn is_numbered_from(numbers: &Vec<u32>, start: u32) -> (b: bool)
    ensures
        b == numbered_from(numbers@.map_values(|n: u32| n as nat), start as nat),
{
    let ghost ns = numbers@.map_values(|n: u32| n as nat);
    let n = numbers.len();
    let mut seen: Vec<bool> = Vec::new();
    let mut k: usize = 0;
    while k < n
        invariant
            k <= n,
            seen@.len() == k,
            forall|j: int| 0 <= j < k ==> !#[trigger] seen@[j],
        decreases n - k,
    {
        seen.push(false);
        k = k + 1;
    }
    let mut i: usize = 0;
    while i < n
        invariant
            n == numbers@.len(),
            ns == numbers@.map_values(|n: u32| n as nat),
            i <= n,
            seen@.len() == n,
            forall|j: int| 0 <= j < i ==> start <= #[trigger] ns[j] < start + n,
            forall|a: int, b: int| 0 <= a < i && 0 <= b < i && a != b ==> #[trigger] ns[a] != #[trigger] ns[b],
            forall|v: int|
                0 <= v < n ==> (#[trigger] seen@[v] <==> exists|j: int| 0 <= j < i && ns[j] == start + v),
        decreases n - i,
    {
        let x = numbers[i];
        assert(ns[i as int] == x);
        if x < start || (x - start) as usize >= n {
            return false;
        }
        let v = (x - start) as usize;
        if seen[v] {
            proof {
                let j = choose|j: int| 0 <= j < i && ns[j] == start + v;
                assert(ns[j] == ns[i as int]);
            }
            return false;
        }
        seen.set(v, true);
        i = i + 1;
        proof {
            assert forall|a: int, b: int| 0 <= a < i && 0 <= b < i && a != b implies #[trigger] ns[a]
                != #[trigger] ns[b] by {
                if a == i - 1 && b < i - 1 {
                    assert(!seen@.update(v as int, false)[v as int]) by {}
                    if ns[b] == ns[a] {
                        assert(ns[b] == start + v);
                    }
                } else if b == i - 1 && a < i - 1 {
                    if ns[b] == ns[a] {
                        assert(ns[a] == start + v);
                    }
                }
            }
            assert forall|w: int| 0 <= w < n implies (#[trigger] seen@[w] <==> exists|j: int|
                0 <= j < i && ns[j] == start + w) by {
                if w == v {
                    assert(ns[i - 1] == start + w);
                } else {
                    if exists|j: int| 0 <= j < i && ns[j] == start + w {
                        let j = choose|j: int| 0 <= j < i && ns[j] == start + w;
                        assert(j < i - 1);
                    }
                }
            }
        }
    }
    true
}

impl HeuristicAudioMeta {
    pub fn new(title: String, track_number: u32) -> (meta: HeuristicAudioMeta)
        ensures
            meta.title == title,
            meta.track_number == track_number,
    {
        HeuristicAudioMeta { title, track_number }
    }

    /// Analyzes the file stems of all tracks of a release (in release order)
    /// and, if it finds a reasonable pattern, returns for each track the track
    /// number and title determined from its file stem.
    ///
    /// The criteria: every stem starts with a number such as "0", "00", "13"
    /// and something follows it; the numbers start at 0 or 1 and count up
    /// one by one (in any order of the files); and enough stems share one
    /// separator after the number (".", ":", " ", " - ", "-", with any amount
    /// of white space). When the evidence is inconclusive, nothing is guessed.
    pub fn compute(file_stems: &Vec<String>) -> (metas: Option<Vec<HeuristicAudioMeta>>)
        requires
            file_stems@.len() > 0,
            track_numbers_in_range(file_stems@.map_values(|s: String| s@)),
        ensures
            ({
                let stems = file_stems@.map_values(|s: String| s@);
                &&& metas is Some <==> heuristic_applies(stems)
                &&& metas matches Some(metas) ==> {
                    &&& metas@.len() == stems.len()
                    &&& forall|i: int|
                        #![trigger metas@[i]]
                        0 <= i < stems.len() ==> {
                            &&& metas@[i].track_number == stem_number(stems[i])
                            &&& metas@[i].title@ == spec_trim_separator_prefix(
                                common_pattern(stem_remainders(stems)).unwrap(),
                                stem_remainder(stems[i]),
                            )
                        }
                }
            }),
    {
        let ghost stems = file_stems@.map_values(|s: String| s@);
        let n = file_stems.len();
        let mut numbers: Vec<u32> = Vec::new();
        let mut remainders: Vec<String> = Vec::new();
        let mut i: usize = 0;
        while i < n
            invariant
                n == file_stems@.len(),
                stems == file_stems@.map_values(|s: String| s@),
                track_numbers_in_range(stems),
                i <= n,
                numbers@.len() == i,
                remainders@.len() == i,
                forall|j: int| 0 <= j < i ==> #[trigger] has_track_number(stems[j]),
                forall|j: int| 0 <= j < i ==> #[trigger] numbers@[j] as nat == stem_number(stems[j]),
                forall|j: int| 0 <= j < i ==> #[trigger] remainders@[j]@ == stem_remainder(stems[j]),
            decreases n - i,
        {
            let stem = file_stems[i].as_str();
            assert(stem@ == stems[i as int]);
            let len = stem.unicode_len();
            let k = split_index(stem);
            if k == 0 || k == len {
                assert(!has_track_number(stems[i as int]));
                return None;
            }
            assert(has_track_number(stems[i as int]));
            proof {
                lemma_first_non_digit(stem@);
                assert(forall|j: int| 0 <= j <= i ==> #[trigger] has_track_number(stems[j]));
                assert(stem_number(stems[i as int]) <= u32::MAX);
            }
            let digits = stem.substring_char(0, k);
            assert(digits@ =~= stem@.take(k as int));
            let number = match parse_u32_str(digits) {
                Some(number) => number,
                None => {
                    assert(parse_u32(digits@) is Some) by {
                        assert(digits@.len() > 0 && digits@[0] != '+') by {
                            assert(is_ascii_digit(stem@.take(k as int)[0]));
                        }
                    }
                    return None;
                },
            };
            let remainder = stem.substring_char(k, len);
            assert(remainder@ =~= stem@.skip(k as int));
            numbers.push(number);
            remainders.push(String::from_str(remainder));
            i = i + 1;
        }
        let ghost ns = stem_numbers(stems);
        assert(numbers@.map_values(|n: u32| n as nat) =~= ns);
        if !(is_numbered_from(&numbers, 0) || is_numbered_from(&numbers, 1)) {
            return None;
        }
        let ghost rems = stem_remainders(stems);
        let mut tally = CommonSeparatorPattern::new();
        let mut r: usize = 0;
        while r < n
            invariant
                n == stems.len(),
                rems == stem_remainders(stems),
                forall|j: int| 0 <= j < n ==> #[trigger] has_track_number(stems[j]),
                numbered_from(stem_numbers(stems), 0) || numbered_from(stem_numbers(stems), 1),
                remainders@.len() == n,
                forall|j: int| 0 <= j < n ==> #[trigger] remainders@[j]@ == stem_remainder(stems[j]),
                r <= n,
                tally.total() == r,
                forall|p: SeparatorPattern| #[trigger] tally.count(p) == count_pattern(rems.take(r as int), p),
            decreases n - r,
        {
            assert(remainders@[r as int]@ == rems[r as int]);
            tally.add(remainders[r].as_str());
            proof {
                assert(rems.take(r + 1).drop_last() =~= rems.take(r as int));
                assert(rems.take(r + 1).last() == rems[r as int]);
            }
            r = r + 1;
        }
        assert(rems.take(n as int) =~= rems);
        let pattern = match tally.determine() {
            Some(pattern) => pattern,
            None => return None,
        };
        let mut metas: Vec<HeuristicAudioMeta> = Vec::new();
        let mut m: usize = 0;
        while m < n
            invariant
                n == stems.len(),
                numbers@.len() == n,
                remainders@.len() == n,
                Some(pattern) == common_pattern(stem_remainders(stems)),
                forall|j: int| 0 <= j < n ==> #[trigger] has_track_number(stems[j]),
                numbered_from(stem_numbers(stems), 0) || numbered_from(stem_numbers(stems), 1),
                forall|j: int| 0 <= j < n ==> #[trigger] numbers@[j] as nat == stem_number(stems[j]),
                forall|j: int| 0 <= j < n ==> #[trigger] remainders@[j]@ == stem_remainder(stems[j]),
                m <= n,
                metas@.len() == m,
                forall|j: int|
                    #![trigger metas@[j]]
                    0 <= j < m ==> {
                        &&& metas@[j].track_number == stem_number(stems[j])
                        &&& metas@[j].title@ == spec_trim_separator_prefix(pattern, stem_remainder(stems[j]))
                    },
            decreases n - m,
        {
            let title = pattern.trim_separator_prefix(remainders[m].as_str());
            metas.push(HeuristicAudioMeta::new(title, numbers[m]));
            m = m + 1;
        }
        assert(heuristic_applies(stems));
        assert(metas@.len() == stems.len());
        assert(common_pattern(stem_remainders(stems)).unwrap() == pattern);
        Some(metas)
    }
}


proof fn lemma_count_unanimous(remainders: Seq<Seq<char>>, p: SeparatorPattern, q: SeparatorPattern)
    requires
        forall|i: int| 0 <= i < remainders.len() ==> #[trigger] classify(remainders[i]) == p,
    ensures
        count_pattern(remainders, q) == if q == p {
            remainders.len()
        } else {
            0
        },
    decreases remainders.len(),
{
    if remainders.len() > 0 {
        let rest = remainders.drop_last();
        assert forall|i: int| 0 <= i < rest.len() implies #[trigger] classify(rest[i]) == p by {
            assert(rest[i] == remainders[i]);
        }
        lemma_count_unanimous(rest, p, q);
        assert(classify(remainders[remainders.len() - 1]) == p);
    }
}

/// When the remainders of all filenames start with the same separator
/// pattern, that pattern is the one determined.
pub proof fn lemma_unanimous_pattern_chosen(remainders: Seq<Seq<char>>, p: SeparatorPattern)
    requires
        remainders.len() > 0,
        forall|i: int| 0 <= i < remainders.len() ==> #[trigger] classify(remainders[i]) == p,
    ensures
        common_pattern(remainders) == Some(p),
{
    lemma_count_unanimous(remainders, p, SeparatorPattern::ColonSpace);
    lemma_count_unanimous(remainders, p, SeparatorPattern::DotSpace);
    lemma_count_unanimous(remainders, p, SeparatorPattern::Space);
    lemma_count_unanimous(remainders, p, SeparatorPattern::SpaceDashSpace);
    lemma_count_unanimous(remainders, p, SeparatorPattern::Unseparated);
    let n = remainders.len();
    assert(agreement_threshold(n) > 0);
    assert(agreement_threshold(n) <= n);
}

/// A pattern that is determined is shared by at least as many remainders as
/// the threshold demands: by all of one or two files, by all but one of up
/// to four files.
pub proof fn lemma_determined_pattern_agreement(remainders: Seq<Seq<char>>)
    ensures
        common_pattern(remainders) matches Some(p) ==> count_pattern(remainders, p)
            >= agreement_threshold(remainders.len()),
        remainders.len() <= 2 ==> agreement_threshold(remainders.len()) == remainders.len(),
        2 < remainders.len() < 5 ==> agreement_threshold(remainders.len()) == remainders.len() - 1,
{
}

/// A title determined from a filename never starts with white space.
pub proof fn lemma_title_without_leading_space(p: SeparatorPattern, remainder: Seq<char>)
    ensures
        spec_trim_separator_prefix(p, remainder).len() > 0 ==> !is_white_space(
            spec_trim_separator_prefix(p, remainder)[0],
        ),
{
    crate::text::lemma_trim_start_no_space(remainder);
    crate::text::lemma_trim_start_no_space(remainder.drop_first());
    crate::text::lemma_trim_start_no_space(trim_start(remainder).drop_first());
}


/// A remainder that starts with a colon (as in "01: Intro" or "01:Intro")
/// is counted as the colon pattern, whatever follows.
pub proof fn lemma_colon_counts_as_colon_space(s: Seq<char>)
    requires
        s.len() > 0,
        s[0] == ':',
    ensures
        classify(s) == SeparatorPattern::ColonSpace,
{
}

/// Filenames that all read "NN: Title" agree on the colon pattern, and the
/// title of each is what follows the colon and the space: for file stems
/// whose remainders (after the track number) are ": " followed by a title
/// that does not start with white space, the common pattern is the colon
/// pattern and removing it gives back each title.
pub proof fn lemma_colon_titles_lose_their_colon(remainders: Seq<Seq<char>>, titles: Seq<Seq<char>>)
    requires
        remainders.len() > 0,
        titles.len() == remainders.len(),
        forall|i: int| 0 <= i < remainders.len() ==> #[trigger] remainders[i] == seq![':', ' '] + titles[i],
        forall|i: int| 0 <= i < titles.len() ==> #[trigger] titles[i].len() > 0 && !is_white_space(titles[i][0]),
    ensures
        common_pattern(remainders) == Some(SeparatorPattern::ColonSpace),
        forall|i: int|
            0 <= i < remainders.len() ==> #[trigger] spec_trim_separator_prefix(
                common_pattern(remainders).unwrap(),
                remainders[i],
            ) == titles[i],
{
    assert forall|i: int| 0 <= i < remainders.len() implies #[trigger] classify(remainders[i])
        == SeparatorPattern::ColonSpace by {
        assert(remainders[i][0] == ':');
    }
    lemma_unanimous_pattern_chosen(remainders, SeparatorPattern::ColonSpace);
    assert forall|i: int| 0 <= i < remainders.len() implies #[trigger] spec_trim_separator_prefix(
        common_pattern(remainders).unwrap(),
        remainders[i],
    ) == titles[i] by {
        let r = remainders[i];
        let title = titles[i];
        assert(r[0] == ':');
        assert(r.drop_first() =~= seq![' '] + title);
        let rest = r.drop_first();
        assert(rest.len() > 0 && is_white_space(rest[0]));
        assert(rest.drop_first() =~= title);
        crate::text::lemma_trim_start_unchanged(title);
    }
}

/// Which pattern a remainder starts with, by its first characters: a dot
/// gives the dot pattern; a dash, or white space followed by a dash, the
/// dash pattern; other white space the space pattern; anything else
/// (or nothing) the unseparated pattern.
pub proof fn lemma_classify_by_first_characters(s: Seq<char>)
    ensures
        s.len() > 0 && s[0] == '.' ==> classify(s) == SeparatorPattern::DotSpace,
        s.len() > 0 && s[0] == '-' ==> classify(s) == SeparatorPattern::SpaceDashSpace,
        s.len() > 1 && is_white_space(s[0]) && s[1] == '-' ==> classify(s) == SeparatorPattern::SpaceDashSpace,
        s.len() > 1 && is_white_space(s[0]) && !is_white_space(s[1]) && s[1] != '-' ==> classify(s)
            == SeparatorPattern::Space,
        s.len() == 1 && is_white_space(s[0]) ==> classify(s) == SeparatorPattern::Space,
        s.len() == 0 ==> classify(s) == SeparatorPattern::Unseparated,
        s.len() > 0 && s[0] != '.' && s[0] != ':' && s[0] != '-' && !is_white_space(s[0]) ==> classify(s)
            == SeparatorPattern::Unseparated,
{
    if s.len() > 1 && is_white_space(s[0]) {
        assert(trim_start(s) == trim_start(s.drop_first()));
        if !is_white_space(s[1]) {
            crate::text::lemma_trim_start_unchanged(s.drop_first());
        }
    }
    if s.len() == 1 && is_white_space(s[0]) {
        assert(s.drop_first().len() == 0);
        assert(trim_start(s) == trim_start(s.drop_first()));
    }
}

/// Filenames that all read "NN. Title" agree on the dot pattern, and the
/// title of each is what follows the dot and the space.
pub proof fn lemma_dot_titles_lose_their_dot(remainders: Seq<Seq<char>>, titles: Seq<Seq<char>>)
    requires
        remainders.len() > 0,
        titles.len() == remainders.len(),
        forall|i: int| 0 <= i < remainders.len() ==> #[trigger] remainders[i] == seq!['.', ' '] + titles[i],
        forall|i: int| 0 <= i < titles.len() ==> #[trigger] titles[i].len() > 0 && !is_white_space(titles[i][0]),
    ensures
        common_pattern(remainders) == Some(SeparatorPattern::DotSpace),
        forall|i: int|
            0 <= i < remainders.len() ==> #[trigger] spec_trim_separator_prefix(
                common_pattern(remainders).unwrap(),
                remainders[i],
            ) == titles[i],
{
    assert forall|i: int| 0 <= i < remainders.len() implies #[trigger] classify(remainders[i])
        == SeparatorPattern::DotSpace by {
        assert(remainders[i][0] == '.');
    }
    lemma_unanimous_pattern_chosen(remainders, SeparatorPattern::DotSpace);
    assert forall|i: int| 0 <= i < remainders.len() implies #[trigger] spec_trim_separator_prefix(
        common_pattern(remainders).unwrap(),
        remainders[i],
    ) == titles[i] by {
        let r = remainders[i];
        let title = titles[i];
        assert(r[0] == '.');
        let rest = r.drop_first();
        assert(rest =~= seq![' '] + title);
        assert(rest.len() > 0 && is_white_space(rest[0]));
        assert(rest.drop_first() =~= title);
        crate::text::lemma_trim_start_unchanged(title);
    }
}

/// Filenames that all read "NN - Title" agree on the dash pattern, and the
/// title of each is what follows the dash and the space.
pub proof fn lemma_dash_titles_lose_their_dash(remainders: Seq<Seq<char>>, titles: Seq<Seq<char>>)
    requires
        remainders.len() > 0,
        titles.len() == remainders.len(),
        forall|i: int| 0 <= i < remainders.len() ==> #[trigger] remainders[i] == seq![' ', '-', ' '] + titles[i],
        forall|i: int| 0 <= i < titles.len() ==> #[trigger] titles[i].len() > 0 && !is_white_space(titles[i][0]),
    ensures
        common_pattern(remainders) == Some(SeparatorPattern::SpaceDashSpace),
        forall|i: int|
            0 <= i < remainders.len() ==> #[trigger] spec_trim_separator_prefix(
                common_pattern(remainders).unwrap(),
                remainders[i],
            ) == titles[i],
{
    assert forall|i: int| 0 <= i < remainders.len() implies #[trigger] classify(remainders[i])
        == SeparatorPattern::SpaceDashSpace by {
        lemma_classify_by_first_characters(remainders[i]);
        assert(remainders[i][0] == ' ' && remainders[i][1] == '-');
    }
    lemma_unanimous_pattern_chosen(remainders, SeparatorPattern::SpaceDashSpace);
    assert forall|i: int| 0 <= i < remainders.len() implies #[trigger] spec_trim_separator_prefix(
        common_pattern(remainders).unwrap(),
        remainders[i],
    ) == titles[i] by {
        let r = remainders[i];
        let title = titles[i];
        let after_space = r.drop_first();
        assert(after_space =~= seq!['-', ' '] + title);
        assert(trim_start(r) == trim_start(after_space));
        crate::text::lemma_trim_start_unchanged(after_space);
        let rest = after_space.drop_first();
        assert(rest =~= seq![' '] + title);
        assert(rest.drop_first() =~= title);
        assert(trim_start(rest) == trim_start(rest.drop_first()));
        crate::text::lemma_trim_start_unchanged(title);
    }
}
} // verus!
