use vstd::prelude::*;

use crate::text::{join, lemma_join_push};

verus! {

broadcast use vstd::seq_lib::to_multiset_insert;

/// `a` comes before `b` or equals it, in the order of strings: character by
/// character (by code point, which is the byte order of UTF-8), a string
/// before its extensions.
pub open spec fn lex_le(a: Seq<char>, b: Seq<char>) -> bool
    decreases a.len(),
{
    if a.len() == 0 {
        true
    } else if b.len() == 0 {
        false
    } else if a[0] != b[0] {
        a[0] < b[0]
    } else {
        lex_le(a.drop_first(), b.drop_first())
    }
}

pub open spec fn is_sorted(s: Seq<Seq<char>>) -> bool {
    forall|i: int, j: int| 0 <= i < j < s.len() ==> lex_le(#[trigger] s[i], #[trigger] s[j])
}

pub open spec fn str_views(s: Seq<&str>) -> Seq<Seq<char>> {
    s.map_values(|x: &str| x@)
}

/// All options of all groups, in order.
pub open spec fn all_options(groups: Seq<&[&str]>, k: int) -> Seq<Seq<char>>
    decreases k,
{
    if k <= 0 {
        seq![]
    } else {
        all_options(groups, k - 1) + str_views(groups[k - 1]@)
    }
}

/// The error for an option that a manifest does not support, listing the
/// supported options.
pub open spec fn not_supported_message(manifest_name: Seq<char>, option_key: Seq<char>, listed: Seq<char>) -> Seq<char> {
    "This '"@ + option_key
        + "' option was not recognized (check for typos and that the option is supported inside a(n) "@
        + manifest_name + " manifest).\n\nInside this manifest ("@ + manifest_name
        + ") the following keys are supported:\n"@ + listed
}

pub proof fn lemma_lex_le_total(a: Seq<char>, b: Seq<char>)
    ensures
        lex_le(a, b) || lex_le(b, a),
    decreases a.len(),
{
    if a.len() > 0 && b.len() > 0 && a[0] == b[0] {
        lemma_lex_le_total(a.drop_first(), b.drop_first());
    }
}

pub proof fn lemma_lex_le_refl(a: Seq<char>)
    ensures
        lex_le(a, a),
    decreases a.len(),
{
    if a.len() > 0 {
        lemma_lex_le_refl(a.drop_first());
    }
}

pub proof fn lemma_lex_le_trans(a: Seq<char>, b: Seq<char>, c: Seq<char>)
    requires
        lex_le(a, b),
        lex_le(b, c),
    ensures
        lex_le(a, c),
    decreases a.len(),
{
    if a.len() > 0 && b.len() > 0 && c.len() > 0 && a[0] == b[0] && b[0] == c[0] {
        lemma_lex_le_trans(a.drop_first(), b.drop_first(), c.drop_first());
    }
}

/// Strings that each come before the other are equal.
pub proof fn lemma_lex_le_antisym(a: Seq<char>, b: Seq<char>)
    requires
        lex_le(a, b),
        lex_le(b, a),
    ensures
        a == b,
    decreases a.len(),
{
    if a.len() == 0 {
        assert(b.len() == 0);
        assert(a =~= b);
    } else {
        assert(b.len() > 0);
        assert(a[0] == b[0]);
        lemma_lex_le_antisym(a.drop_first(), b.drop_first());
        assert forall|i: int| 0 <= i < a.len() implies a[i] == b[i] by {
            if i > 0 {
                assert(a[i] == a.drop_first()[i - 1]);
                assert(b[i] == b.drop_first()[i - 1]);
            }
        }
        assert(a =~= b);
    }
}

/// Whether `a` comes before `b` or equals it.
pub fn str_le(a: &str, b: &str) -> (le: bool)
    ensures
        le == lex_le(a@, b@),
{
    let n = a.unicode_len();
    let m = b.unicode_len();
    let mut i: usize = 0;
    assert(a@.subrange(0, n as int) =~= a@);
    assert(b@.subrange(0, m as int) =~= b@);
    while i < n && i < m
        invariant
            n == a@.len(),
            m == b@.len(),
            i <= n,
            i <= m,
            a@.subrange(0, i as int) == b@.subrange(0, i as int),
            lex_le(a@, b@) == lex_le(a@.subrange(i as int, n as int), b@.subrange(i as int, m as int)),
        decreases n - i,
    {
        let x = a.get_char(i);
        let y = b.get_char(i);
        let ghost ra = a@.subrange(i as int, n as int);
        let ghost rb = b@.subrange(i as int, m as int);
        assert(ra[0] == x && rb[0] == y);
        if x != y {
            return x < y;
        }
        assert(ra.drop_first() =~= a@.subrange(i + 1, n as int));
        assert(rb.drop_first() =~= b@.subrange(i + 1, m as int));
        assert(a@.subrange(0, i + 1) =~= a@.subrange(0, i as int).push(x));
        assert(b@.subrange(0, i + 1) =~= b@.subrange(0, i as int).push(y));
        i = i + 1;
    }
    i == n
}

/// Sorts the options into the order of strings.
fn sort_options(options: Vec<&str>) -> (sorted: Vec<&str>)
    ensures
        is_sorted(str_views(sorted@)),
        str_views(sorted@).to_multiset() == str_views(options@).to_multiset(),
{
    let mut sorted: Vec<&str> = Vec::new();
    let mut k: usize = 0;
    assert(str_views(sorted@) =~= str_views(options@.take(0)));
    while k < options.len()
        invariant
            k <= options@.len(),
            is_sorted(str_views(sorted@)),
            str_views(sorted@).to_multiset() == str_views(options@.take(k as int)).to_multiset(),
        decreases options@.len() - k,
    {
        let x = options[k];
        let mut p: usize = 0;
        while p < sorted.len() && !str_le(x, sorted[p])
            invariant
                p <= sorted@.len(),
                forall|i: int| 0 <= i < p ==> lex_le(#[trigger] str_views(sorted@)[i], x@),
            decreases sorted@.len() - p,
        {
            proof {
                lemma_lex_le_total(x@, sorted@[p as int]@);
            }
            p = p + 1;
        }
        let ghost before = str_views(sorted@);
        proof {
            if p < before.len() {
                assert(lex_le(x@, before[p as int]));
            }
        }
        sorted.insert(p, x);
        proof {
            let s = str_views(sorted@);
            assert(s =~= before.insert(p as int, x@));
            assert forall|i: int, j: int| 0 <= i < j < s.len() implies lex_le(#[trigger] s[i], #[trigger] s[j]) by {
                if j < p {
                    assert(s[i] == before[i] && s[j] == before[j]);
                } else if j == p {
                    assert(s[i] == before[i]);
                } else if i < p {
                    assert(s[i] == before[i] && s[j] == before[j - 1]);
                    lemma_lex_le_refl(before[p as int]);
                    assert(lex_le(before[p as int], before[j - 1]));
                    lemma_lex_le_trans(x@, before[p as int], before[j - 1]);
                    lemma_lex_le_trans(before[i], x@, before[j - 1]);
                } else if i == p {
                    assert(s[j] == before[j - 1]);
                    lemma_lex_le_refl(before[p as int]);
                    assert(lex_le(before[p as int], before[j - 1]));
                    lemma_lex_le_trans(x@, before[p as int], before[j - 1]);
                } else {
                    assert(s[i] == before[i - 1] && s[j] == before[j - 1]);
                }
            }
            assert(str_views(options@.take(k + 1)) =~= str_views(options@.take(k as int)).push(x@));
            vstd::seq_lib::to_multiset_build(str_views(options@.take(k as int)), x@);
        }
        k = k + 1;
    }
    assert(options@.take(options@.len() as int) =~= options@);
    sorted
}

/// The error for the option `option_key`, which a manifest of the kind
/// `manifest_name` does not support: it lists all supported options (those
/// of all groups) in the order of strings, joined with ", ".
pub fn not_supported_error(manifest_name: &str, option_key: &str, supported_options_groups: &[&[&str]]) -> (error: String)
    ensures
        exists|listed: Seq<Seq<char>>|
            is_sorted(listed) && listed.to_multiset() == all_options(
                supported_options_groups@,
                supported_options_groups@.len() as int,
            ).to_multiset() && error@ == #[trigger] not_supported_message(
                manifest_name@,
                option_key@,
                join(listed, ", "@),
            ),
{
    let mut options: Vec<&str> = Vec::new();
    let mut g: usize = 0;
    while g < supported_options_groups.len()
        invariant
            g <= supported_options_groups@.len(),
            str_views(options@) == all_options(supported_options_groups@, g as int),
        decreases supported_options_groups@.len() - g,
    {
        let group = supported_options_groups[g];
        let ghost start = str_views(options@);
        let mut o: usize = 0;
        while o < group.len()
            invariant
                o <= group@.len(),
                str_views(options@) == start + str_views(group@.take(o as int)),
            decreases group@.len() - o,
        {
            let ghost before = options@;
            options.push(group[o]);
            assert(str_views(options@) =~= str_views(before).push(group@[o as int]@));
            assert(str_views(group@.take(o + 1)) =~= str_views(group@.take(o as int)).push(group@[o as int]@));
            assert(str_views(options@) =~= start + str_views(group@.take(o + 1)));
            o = o + 1;
        }
        assert(group@.take(group@.len() as int) =~= group@);
        g = g + 1;
    }
    let sorted = sort_options(options);
    let mut listed = String::new();
    let mut i: usize = 0;
    while i < sorted.len()
        invariant
            i <= sorted@.len(),
            listed@ == join(str_views(sorted@.take(i as int)), ", "@),
        decreases sorted@.len() - i,
    {
        proof {
            assert(str_views(sorted@.take(i + 1)) =~= str_views(sorted@.take(i as int)).push(sorted@[i as int]@));
            lemma_join_push(str_views(sorted@.take(i as int)), ", "@, sorted@[i as int]@);
        }
        if i > 0 {
            listed.append(", ");
        }
        listed.append(sorted[i]);
        i = i + 1;
    }
    assert(sorted@.take(sorted@.len() as int) =~= sorted@);
    let mut error = String::from_str("This '");
    error.append(option_key);
    error.append("' option was not recognized (check for typos and that the option is supported inside a(n) ");
    error.append(manifest_name);
    error.append(" manifest).\n\nInside this manifest (");
    error.append(manifest_name);
    error.append(") the following keys are supported:\n");
    error.append(listed.as_str());
    assert(error@ == not_supported_message(manifest_name@, option_key@, join(str_views(sorted@), ", "@)));
    error
}

} // verus!
