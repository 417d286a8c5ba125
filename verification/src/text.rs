use vstd::prelude::*;

verus! {

/// The Unicode `White_Space` property, which is what Rust's
/// `char::is_whitespace` (and therefore `str::trim`) goes by.
pub open spec fn is_white_space(c: char) -> bool {
    ||| ('\u{9}' <= c && c <= '\u{d}')
    ||| c == ' '
    ||| c == '\u{85}'
    ||| c == '\u{a0}'
    ||| c == '\u{1680}'
    ||| ('\u{2000}' <= c && c <= '\u{200a}')
    ||| c == '\u{2028}'
    ||| c == '\u{2029}'
    ||| c == '\u{202f}'
    ||| c == '\u{205f}'
    ||| c == '\u{3000}'
}

/// `s` with all leading white space removed.
pub open spec fn trim_start(s: Seq<char>) -> Seq<char>
    decreases s.len(),
{
    if s.len() > 0 && is_white_space(s[0]) {
        trim_start(s.drop_first())
    } else {
        s
    }
}

/// `s` with all trailing white space removed.
pub open spec fn trim_end(s: Seq<char>) -> Seq<char>
    decreases s.len(),
{
    if s.len() > 0 && is_white_space(s.last()) {
        trim_end(s.drop_last())
    } else {
        s
    }
}

/// `s` with white space removed at both ends.
pub open spec fn trim(s: Seq<char>) -> Seq<char> {
    trim_end(trim_start(s))
}

pub open spec fn is_ascii_digit(c: char) -> bool {
    '0' <= c && c <= '9'
}

pub open spec fn all_ascii_digits(s: Seq<char>) -> bool {
    forall|i: int| 0 <= i < s.len() ==> #[trigger] is_ascii_digit(s[i])
}

pub open spec fn digit_value(c: char) -> nat {
    (c as int - '0' as int) as nat
}

/// The number that a sequence of decimal digits denotes.
pub open spec fn decimal_value(s: Seq<char>) -> nat
    decreases s.len(),
{
    if s.len() == 0 {
        0
    } else {
        decimal_value(s.drop_last()) * 10 + digit_value(s.last())
    }
}

/// What `str::parse::<u32>` gives: an optional `+` sign, then one or more
/// ASCII digits whose value fits in a `u32`; anything else is an error.
pub open spec fn parse_u32(s: Seq<char>) -> Option<u32> {
    let digits = if s.len() > 0 && s[0] == '+' { s.drop_first() } else { s };
    if digits.len() > 0 && all_ascii_digits(digits) && decimal_value(digits) <= u32::MAX {
        Some(decimal_value(digits) as u32)
    } else {
        None
    }
}

pub open spec fn digit_char(d: nat) -> char
    recommends
        d < 10,
{
    ('0' as int + d) as char
}

/// The decimal representation of `n`, without leading zeros.
pub open spec fn decimal_string(n: nat) -> Seq<char>
    decreases n,
{
    if n < 10 {
        seq![digit_char(n)]
    } else {
        decimal_string(n / 10).push(digit_char(n % 10))
    }
}

/// The index of the first occurrence of `c` in `s`, if any.
pub open spec fn find_char(s: Seq<char>, c: char) -> Option<int>
    decreases s.len(),
{
    if s.len() == 0 {
        None
    } else if s[0] == c {
        Some(0)
    } else {
        match find_char(s.drop_first(), c) {
            Some(i) => Some(i + 1),
            None => None,
        }
    }
}

/// The part of `s` before the first `c` (all of `s` where there is none),
/// which is the first item that `str::split(c)` yields.
pub open spec fn before_first(s: Seq<char>, c: char) -> Seq<char> {
    match find_char(s, c) {
        Some(i) => s.take(i),
        None => s,
    }
}

pub proof fn lemma_find_char(s: Seq<char>, c: char)
    ensures
        find_char(s, c) matches Some(i) ==> 0 <= i < s.len() && s[i] == c
            && forall|j: int| 0 <= j < i ==> s[j] != c,
        find_char(s, c) is None ==> forall|j: int| 0 <= j < s.len() ==> s[j] != c,
    decreases s.len(),
{
    if s.len() > 0 && s[0] != c {
        lemma_find_char(s.drop_first(), c);
        if let Some(i) = find_char(s, c) {
            assert forall|j: int| 0 <= j < i implies s[j] != c by {
                if j > 0 {
                    assert(s[j] == s.drop_first()[j - 1]);
                }
            }
        } else {
            assert forall|j: int| 0 <= j < s.len() implies s[j] != c by {
                if j > 0 {
                    assert(s[j] == s.drop_first()[j - 1]);
                }
            }
        }
    }
}

/// Whether `c` is white space in the sense of `char::is_whitespace`.
pub fn is_whitespace(c: char) -> (b: bool)
    ensures
        b == is_white_space(c),
{
    ('\u{9}' <= c && c <= '\u{d}') || c == ' ' || c == '\u{85}' || c == '\u{a0}' || c == '\u{1680}'
        || ('\u{2000}' <= c && c <= '\u{200a}') || c == '\u{2028}' || c == '\u{2029}' || c
        == '\u{202f}' || c == '\u{205f}' || c == '\u{3000}'
}

proof fn lemma_trim_start_step(s: Seq<char>, i: int)
    requires
        0 <= i < s.len(),
        is_white_space(s[i]),
    ensures
        trim_start(s.skip(i)) == trim_start(s.skip(i + 1)),
{
    assert(s.skip(i).drop_first() =~= s.skip(i + 1));
}

proof fn lemma_trim_end_step(s: Seq<char>, j: int)
    requires
        0 < j <= s.len(),
        is_white_space(s[j - 1]),
    ensures
        trim_end(s.take(j)) == trim_end(s.take(j - 1)),
{
    assert(s.take(j).drop_last() =~= s.take(j - 1));
}

/// The index range `[start, end)` of `s` that remains after trimming.
fn trim_bounds(s: &str) -> (r: (usize, usize))
    ensures
        r.0 <= r.1 <= s@.len(),
        trim(s@) == s@.subrange(r.0 as int, r.1 as int),
{
    let len = s.unicode_len();
    let mut start: usize = 0;
    assert(s@.skip(0) =~= s@);
    while start < len && is_whitespace(s.get_char(start))
        invariant
            len == s@.len(),
            start <= len,
            trim_start(s@) == trim_start(s@.skip(start as int)),
        decreases len - start,
    {
        proof {
            lemma_trim_start_step(s@, start as int);
        }
        start = start + 1;
    }
    let ghost rest = s@.skip(start as int);
    assert(trim_start(s@) == rest) by {
        if rest.len() > 0 {
            assert(rest[0] == s@[start as int]);
        }
    }
    let mut end: usize = len;
    assert(rest.take(rest.len() as int) =~= rest);
    while end > start && is_whitespace(s.get_char(end - 1))
        invariant
            len == s@.len(),
            start <= end <= len,
            rest == s@.skip(start as int),
            trim(s@) == trim_end(rest.take(end - start)),
        decreases end,
    {
        proof {
            assert(rest[end - 1 - start] == s@[end - 1]);
            lemma_trim_end_step(rest, end - start);
        }
        end = end - 1;
    }
    assert(rest.take(end - start) =~= s@.subrange(start as int, end as int));
    assert(trim_end(rest.take(end - start)) == rest.take(end - start)) by {
        if end > start {
            assert(rest.take(end - start).last() == s@[end - 1]);
        }
    }
    (start, end)
}

/// `s` with leading and trailing white space removed (`str::trim`).
pub fn trim_str(s: &str) -> (t: &str)
    ensures
        t@ == trim(s@),
{
    let (start, end) = trim_bounds(s);
    s.substring_char(start, end)
}

/// `s` with trailing white space removed (`str::trim_end`).
pub fn trim_end_str(s: &str) -> (t: &str)
    ensures
        t@ == trim_end(s@),
{
    let len = s.unicode_len();
    let mut end: usize = len;
    assert(s@.take(len as int) =~= s@);
    while end > 0 && is_whitespace(s.get_char(end - 1))
        invariant
            len == s@.len(),
            end <= len,
            trim_end(s@) == trim_end(s@.take(end as int)),
        decreases end,
    {
        proof {
            lemma_trim_end_step(s@, end as int);
        }
        end = end - 1;
    }
    assert(trim_end(s@.take(end as int)) == s@.take(end as int)) by {
        if end > 0 {
            assert(s@.take(end as int).last() == s@[end - 1]);
        }
    }
    s.substring_char(0, end)
}

/// `s` with leading white space removed (`str::trim_start`).
pub fn trim_start_str(s: &str) -> (t: &str)
    ensures
        t@ == trim_start(s@),
{
    let len = s.unicode_len();
    let mut start: usize = 0;
    assert(s@.skip(0) =~= s@);
    while start < len && is_whitespace(s.get_char(start))
        invariant
            len == s@.len(),
            start <= len,
            trim_start(s@) == trim_start(s@.skip(start as int)),
        decreases len - start,
    {
        proof {
            lemma_trim_start_step(s@, start as int);
        }
        start = start + 1;
    }
    assert(trim_start(s@.skip(start as int)) == s@.skip(start as int)) by {
        if start < len {
            assert(s@.skip(start as int)[0] == s@[start as int]);
        }
    }
    assert(s@.skip(start as int) =~= s@.subrange(start as int, len as int));
    s.substring_char(start, len)
}

proof fn lemma_decimal_value_push(s: Seq<char>, c: char)
    ensures
        decimal_value(s.push(c)) == decimal_value(s) * 10 + digit_value(c),
{
    assert(s.push(c).drop_last() =~= s);
}

proof fn lemma_decimal_value_monotone(s: Seq<char>, n: int)
    requires
        0 <= n <= s.len(),
        all_ascii_digits(s),
    ensures
        decimal_value(s.take(n)) <= decimal_value(s),
    decreases s.len() - n,
{
    if n < s.len() {
        lemma_decimal_value_monotone(s, n + 1);
        assert(s.take(n + 1) =~= s.take(n).push(s[n]));
        lemma_decimal_value_push(s.take(n), s[n]);
    } else {
        assert(s.take(n) =~= s);
    }
}

/// `str::parse::<u32>`: optional `+`, then decimal digits within range.
pub fn parse_u32_str(s: &str) -> (r: Option<u32>)
    ensures
        r == parse_u32(s@),
{
    let len = s.unicode_len();
    let start: usize = if len > 0 && s.get_char(0) == '+' { 1 } else { 0 };
    let ghost digits = if s@.len() > 0 && s@[0] == '+' { s@.drop_first() } else { s@ };
    assert(digits =~= s@.skip(start as int));
    if start == len {
        return None;
    }
    let mut value: u64 = 0;
    let mut i: usize = start;
    while i < len
        invariant
            len == s@.len(),
            start <= i <= len,
            start < len,
            digits == (if s@.len() > 0 && s@[0] == '+' { s@.drop_first() } else { s@ }),
            digits =~= s@.skip(start as int),
            all_ascii_digits(digits.take(i - start)),
            value as nat == decimal_value(digits.take(i - start)),
            value <= u32::MAX,
        decreases len - i,
    {
        let c = s.get_char(i);
        if !('0' <= c && c <= '9') {
            proof {
                assert(digits[i - start] == c);
                assert(!is_ascii_digit(digits[i - start]));
            }
            return None;
        }
        let d = (c as u32 - '0' as u32) as u64;
        proof {
            assert(digits.take(i + 1 - start) =~= digits.take(i - start).push(c));
            lemma_decimal_value_push(digits.take(i - start), c);
        }
        value = value * 10 + d;
        if value > u32::MAX as u64 {
            proof {
                assert(all_ascii_digits(digits.take(i + 1 - start)));
                if all_ascii_digits(digits) {
                    lemma_decimal_value_monotone(digits, i + 1 - start);
                }
            }
            return None;
        }
        i = i + 1;
    }
    assert(digits.take(len - start) =~= digits);
    Some(value as u32)
}

/// The single-character string of the decimal digit `d`.
fn digit_str(d: u32) -> (s: &'static str)
    requires
        d < 10,
    ensures
        s@ == seq![digit_char(d as nat)],
{
    proof {
        reveal_strlit("0");
        reveal_strlit("1");
        reveal_strlit("2");
        reveal_strlit("3");
        reveal_strlit("4");
        reveal_strlit("5");
        reveal_strlit("6");
        reveal_strlit("7");
        reveal_strlit("8");
        reveal_strlit("9");
    }
    let s = if d == 0 {
        "0"
    } else if d == 1 {
        "1"
    } else if d == 2 {
        "2"
    } else if d == 3 {
        "3"
    } else if d == 4 {
        "4"
    } else if d == 5 {
        "5"
    } else if d == 6 {
        "6"
    } else if d == 7 {
        "7"
    } else if d == 8 {
        "8"
    } else {
        "9"
    };
    assert(s@ =~= seq![digit_char(d as nat)]);
    s
}

/// Appends the decimal representation of `n` to `out`.
pub fn push_decimal(out: &mut String, n: u64)
    ensures
        final(out)@ == old(out)@ + decimal_string(n as nat),
    decreases n,
{
    if n >= 10 {
        push_decimal(out, n / 10);
    }
    let d = (n % 10) as u32;
    out.append(digit_str(d));
    proof {
        if n >= 10 {
            assert(decimal_string(n as nat) == decimal_string((n / 10) as nat).push(digit_char((n % 10) as nat)));
        }
    }
    assert(final(out)@ =~= old(out)@ + decimal_string(n as nat));
}

/// The decimal representation of `n` (what `n.to_string()` gives).
pub fn decimal(n: u64) -> (s: String)
    ensures
        s@ == decimal_string(n as nat),
{
    let mut s = String::new();
    push_decimal(&mut s, n);
    assert(s@ =~= decimal_string(n as nat));
    s
}


/// Whether two strings consist of the same characters.
pub fn str_equal(a: &str, b: &str) -> (eq: bool)
    ensures
        eq == (a@ == b@),
{
    let n = a.unicode_len();
    if n != b.unicode_len() {
        return false;
    }
    let mut i: usize = 0;
    while i < n
        invariant
            n == a@.len(),
            n == b@.len(),
            i <= n,
            forall|j: int| 0 <= j < i ==> a@[j] == b@[j],
        decreases n - i,
    {
        if a.get_char(i) != b.get_char(i) {
            return false;
        }
        i = i + 1;
    }
    assert(a@ =~= b@);
    true
}


/// Whether `c` is one of the ASCII digits '0' to '9'.
pub fn is_ascii_digit_char(c: char) -> (b: bool)
    ensures
        b == is_ascii_digit(c),
{
    '0' <= c && c <= '9'
}


pub open spec fn starts_with(s: Seq<char>, prefix: Seq<char>) -> bool {
    s.len() >= prefix.len() && s.take(prefix.len() as int) == prefix
}

/// Whether `s` begins with `prefix` (`str::starts_with`).
pub fn starts_with_str(s: &str, prefix: &str) -> (b: bool)
    ensures
        b == starts_with(s@, prefix@),
{
    let n = prefix.unicode_len();
    if s.unicode_len() < n {
        return false;
    }
    let mut i: usize = 0;
    while i < n
        invariant
            n == prefix@.len(),
            n <= s@.len(),
            i <= n,
            forall|j: int| 0 <= j < i ==> s@[j] == prefix@[j],
        decreases n - i,
    {
        if s.get_char(i) != prefix.get_char(i) {
            assert(s@.take(n as int)[i as int] != prefix@[i as int]);
            return false;
        }
        i = i + 1;
    }
    assert(s@.take(n as int) =~= prefix@);
    true
}

pub open spec fn ends_with(s: Seq<char>, suffix: Seq<char>) -> bool {
    s.len() >= suffix.len() && s.skip(s.len() - suffix.len()) == suffix
}

/// Whether `s` ends with `suffix` (`str::ends_with`).
pub fn ends_with_str(s: &str, suffix: &str) -> (b: bool)
    ensures
        b == ends_with(s@, suffix@),
{
    let n = suffix.unicode_len();
    let len = s.unicode_len();
    if len < n {
        return false;
    }
    let offset = len - n;
    let mut i: usize = 0;
    while i < n
        invariant
            n == suffix@.len(),
            len == s@.len(),
            offset == len - n,
            i <= n,
            forall|j: int| 0 <= j < i ==> s@[offset + j] == suffix@[j],
        decreases n - i,
    {
        if s.get_char(offset + i) != suffix.get_char(i) {
            assert(s@.skip(offset as int)[i as int] != suffix@[i as int]);
            return false;
        }
        i = i + 1;
    }
    assert(s@.skip(offset as int) =~= suffix@);
    true
}

/// Whether `s` contains `needle` as a contiguous part (`str::contains`).
pub open spec fn contains(s: Seq<char>, needle: Seq<char>) -> bool {
    exists|i: int| 0 <= i <= s.len() - needle.len() && #[trigger] s.subrange(i, i + needle.len()) == needle
}

/// Whether `s` contains `needle` as a contiguous part (`str::contains`).
pub fn contains_str(s: &str, needle: &str) -> (b: bool)
    ensures
        b == contains(s@, needle@),
{
    let n = s.unicode_len();
    let m = needle.unicode_len();
    if m == 0 {
        assert(s@.subrange(0int, 0int + needle@.len()) =~= needle@);
        return true;
    }
    let mut i: usize = 0;
    while m <= n - i
        invariant
            n == s@.len(),
            m == needle@.len(),
            m > 0,
            i <= n,
            forall|k: int| 0 <= k < i ==> #[trigger] s@.subrange(k, k + m) != needle@,
        decreases n - i,
    {
        let window = s.substring_char(i, i + m);
        if str_equal(window, needle) {
            return true;
        }
        i = i + 1;
    }
    false
}


/// A decimal representation is a nonempty run of digits denoting the number.
pub proof fn lemma_decimal_string_digits(n: nat)
    ensures
        decimal_string(n).len() > 0,
        all_ascii_digits(decimal_string(n)),
        decimal_value(decimal_string(n)) == n,
    decreases n,
{
    if n >= 10 {
        lemma_decimal_string_digits(n / 10);
        let prefix = decimal_string(n / 10);
        lemma_decimal_value_push(prefix, digit_char(n % 10));
        assert(digit_value(digit_char(n % 10)) == n % 10);
        assert(n == (n / 10) * 10 + n % 10) by (nonlinear_arith);
        assert(decimal_string(n) == prefix.push(digit_char(n % 10)));
        assert forall|i: int| 0 <= i < decimal_string(n).len() implies #[trigger] is_ascii_digit(
            decimal_string(n)[i],
        ) by {
            if i < prefix.len() {
                assert(decimal_string(n)[i] == prefix[i]);
            }
        }
    } else {
        assert(seq![digit_char(n)].drop_last() =~= Seq::<char>::empty());
        assert(digit_value(digit_char(n)) == n);
        assert(decimal_value(Seq::<char>::empty()) == 0);
        assert(decimal_value(seq![digit_char(n)]) == n);
    }
}

/// Reading back the decimal representation of a `u32` gives the number.
pub proof fn lemma_parse_decimal_round_trip(n: u32)
    ensures
        parse_u32(decimal_string(n as nat)) == Some(n),
{
    lemma_decimal_string_digits(n as nat);
    assert(is_ascii_digit(decimal_string(n as nat)[0]));
}

/// Trimming leaves neither leading nor trailing white space.
pub proof fn lemma_trim_no_surrounding_space(s: Seq<char>)
    ensures
        trim(s).len() > 0 ==> !is_white_space(trim(s)[0]) && !is_white_space(trim(s).last()),
        trim_start(s).len() > 0 ==> !is_white_space(trim_start(s)[0]),
{
    lemma_trim_start_no_space(s);
    lemma_trim_end_keeps_start(trim_start(s));
}

pub proof fn lemma_trim_start_no_space(s: Seq<char>)
    ensures
        trim_start(s).len() > 0 ==> !is_white_space(trim_start(s)[0]),
    decreases s.len(),
{
    if s.len() > 0 && is_white_space(s[0]) {
        lemma_trim_start_no_space(s.drop_first());
    }
}

proof fn lemma_trim_end_keeps_start(s: Seq<char>)
    requires
        s.len() > 0 ==> !is_white_space(s[0]),
    ensures
        trim_end(s).len() > 0 ==> !is_white_space(trim_end(s)[0]) && !is_white_space(trim_end(s).last()),
        trim_end(s).len() <= s.len(),
        trim_end(s) == s.take(trim_end(s).len() as int),
    decreases s.len(),
{
    if s.len() > 0 && is_white_space(s.last()) {
        lemma_trim_end_keeps_start(s.drop_last());
        let t = trim_end(s.drop_last());
        assert(s.drop_last().take(t.len() as int) =~= s.take(t.len() as int));
        if t.len() > 0 {
            assert(t[0] == s[0]);
        }
    } else {
        assert(s.take(s.len() as int) =~= s);
    }
}

/// Trimming the end of `x + y`, where `x` ends in something other than
/// white space, only trims `y`.
pub proof fn lemma_trim_end_append(x: Seq<char>, y: Seq<char>)
    requires
        x.len() > 0,
        !is_white_space(x.last()),
    ensures
        trim_end(x + y) == x + trim_end(y),
    decreases y.len(),
{
    if y.len() > 0 {
        assert((x + y).last() == y.last());
        if is_white_space(y.last()) {
            assert((x + y).drop_last() =~= x + y.drop_last());
            lemma_trim_end_append(x, y.drop_last());
        }
    } else {
        assert(x + y =~= x);
        assert(trim_end(x) == x);
        assert(x + trim_end(y) =~= x);
    }
}

/// A string that starts with a character other than white space is left
/// unchanged at its start by trimming.
pub proof fn lemma_trim_start_unchanged(s: Seq<char>)
    requires
        s.len() > 0,
        !is_white_space(s[0]),
    ensures
        trim_start(s) == s,
{
}

pub proof fn lemma_find_char_after_prefix(x: Seq<char>, c: char, y: Seq<char>)
    requires
        forall|i: int| 0 <= i < x.len() ==> x[i] != c,
    ensures
        find_char(x.push(c) + y, c) == Some(x.len() as int),
    decreases x.len(),
{
    if x.len() == 0 {
        assert((x.push(c) + y)[0] == c);
    } else {
        assert((x.push(c) + y).drop_first() =~= x.drop_first().push(c) + y);
        lemma_find_char_after_prefix(x.drop_first(), c, y);
    }
}

/// Trimming adds no character: a character that `s` does not hold, its
/// trimmed form does not hold either.
pub proof fn lemma_trim_avoids(s: Seq<char>, x: char)
    requires
        forall|j: int| 0 <= j < s.len() ==> s[j] != x,
    ensures
        forall|i: int| 0 <= i < trim(s).len() ==> trim(s)[i] != x,
{
    lemma_trim_start_avoids(s, x);
    lemma_trim_end_avoids(trim_start(s), x);
}

proof fn lemma_trim_start_avoids(s: Seq<char>, x: char)
    requires
        forall|j: int| 0 <= j < s.len() ==> s[j] != x,
    ensures
        forall|i: int| 0 <= i < trim_start(s).len() ==> trim_start(s)[i] != x,
    decreases s.len(),
{
    if s.len() > 0 && is_white_space(s[0]) {
        assert forall|j: int| 0 <= j < s.drop_first().len() implies s.drop_first()[j] != x by {
            assert(s.drop_first()[j] == s[j + 1]);
        }
        lemma_trim_start_avoids(s.drop_first(), x);
        assert(trim_start(s) == trim_start(s.drop_first()));
    } else {
        assert(trim_start(s) == s);
    }
}

proof fn lemma_trim_end_avoids(s: Seq<char>, x: char)
    requires
        forall|j: int| 0 <= j < s.len() ==> s[j] != x,
    ensures
        forall|i: int| 0 <= i < trim_end(s).len() ==> trim_end(s)[i] != x,
    decreases s.len(),
{
    if s.len() > 0 && is_white_space(s.last()) {
        assert forall|j: int| 0 <= j < s.drop_last().len() implies s.drop_last()[j] != x by {
            assert(s.drop_last()[j] == s[j]);
        }
        lemma_trim_end_avoids(s.drop_last(), x);
        assert(trim_end(s) == trim_end(s.drop_last()));
    } else {
        assert(trim_end(s) == s);
    }
}

/// `parts` joined with `sep` between each two of them.
pub open spec fn join(parts: Seq<Seq<char>>, sep: Seq<char>) -> Seq<char>
    decreases parts.len(),
{
    if parts.len() == 0 {
        seq![]
    } else if parts.len() == 1 {
        parts[0]
    } else {
        join(parts.drop_last(), sep) + sep + parts.last()
    }
}

/// `join` with one more part.
pub proof fn lemma_join_push(parts: Seq<Seq<char>>, sep: Seq<char>, part: Seq<char>)
    ensures
        join(parts.push(part), sep) == if parts.len() == 0 {
            part
        } else {
            join(parts, sep) + sep + part
        },
{
    assert(parts.push(part).drop_last() =~= parts);
}

/// The views of a sequence of strings.
pub open spec fn views(parts: Seq<String>) -> Seq<Seq<char>> {
    parts.map_values(|s: String| s@)
}

/// Appends `parts`, joined with `sep`, to `out`.
pub fn push_joined_strings(out: &mut String, parts: &Vec<String>, sep: &str)
    ensures
        final(out)@ == old(out)@ + join(views(parts@), sep@),
{
    let ghost start = out@;
    let mut i: usize = 0;
    assert(views(parts@.take(0)) =~= Seq::<Seq<char>>::empty());
    while i < parts.len()
        invariant
            i <= parts@.len(),
            out@ == start + join(views(parts@.take(i as int)), sep@),
        decreases parts@.len() - i,
    {
        proof {
            assert(views(parts@.take(i + 1)) =~= views(parts@.take(i as int)).push(parts@[i as int]@));
            lemma_join_push(views(parts@.take(i as int)), sep@, parts@[i as int]@);
        }
        if i > 0 {
            out.append(sep);
        }
        out.append(parts[i].as_str());
        i = i + 1;
    }
    assert(parts@.take(parts@.len() as int) =~= parts@);
}

/// The view of an optional string.
pub open spec fn opt_view(o: Option<String>) -> Option<Seq<char>> {
    match o {
        Some(s) => Some(s@),
        None => None,
    }
}

} // verus!
