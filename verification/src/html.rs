//! Escaping text for html: outside of tags, where `&`, `<` and `>` must be
//! written as entities, and inside double- or single-quoted attribute
//! values, where the quotes must be too.

use vstd::prelude::*;

verus! {

/// What one character becomes outside of tags.
pub open spec fn escaped_outside_char(c: char) -> Seq<char> {
    if c == '&' {
        "&amp;"@
    } else if c == '<' {
        "&lt;"@
    } else if c == '>' {
        "&gt;"@
    } else {
        seq![c]
    }
}

/// What one character becomes inside an attribute value.
pub open spec fn escaped_inside_char(c: char) -> Seq<char> {
    if c == '"' {
        "&quot;"@
    } else if c == '\'' {
        "&#39;"@
    } else {
        escaped_outside_char(c)
    }
}

/// `s` escaped for use outside of tags: each character as
/// `escaped_outside_char` writes it.
pub open spec fn escape_outside_attribute(s: Seq<char>) -> Seq<char>
    decreases s.len(),
{
    if s.len() == 0 {
        seq![]
    } else {
        escape_outside_attribute(s.drop_last()) + escaped_outside_char(s.last())
    }
}

/// `s` escaped for use inside an attribute value: each character as
/// `escaped_inside_char` writes it.
pub open spec fn escape_inside_attribute(s: Seq<char>) -> Seq<char>
    decreases s.len(),
{
    if s.len() == 0 {
        seq![]
    } else {
        escape_inside_attribute(s.drop_last()) + escaped_inside_char(s.last())
    }
}

/// Escapes `text` for use outside of tags: `&`, `<` and `>` become
/// `&amp;`, `&lt;` and `&gt;`.
pub fn html_escape_outside_attribute(text: &str) -> (escaped: String)
    ensures
        escaped@ == escape_outside_attribute(text@),
{
    escape(text, false)
}

/// Escapes `text` for use inside an attribute value: besides `&`, `<` and
/// `>`, also `"` and `'` become entities (`&quot;` and `&#39;`).
pub fn html_escape_inside_attribute(text: &str) -> (escaped: String)
    ensures
        escaped@ == escape_inside_attribute(text@),
{
    escape(text, true)
}

fn escape(text: &str, inside: bool) -> (escaped: String)
    ensures
        escaped@ == if inside {
            escape_inside_attribute(text@)
        } else {
            escape_outside_attribute(text@)
        },
{
    proof {
        reveal_strlit("&amp;");
        reveal_strlit("&lt;");
        reveal_strlit("&gt;");
        reveal_strlit("&quot;");
        reveal_strlit("&#39;");
    }
    let n = text.unicode_len();
    let mut escaped = String::new();
    let mut i: usize = 0;
    while i < n
        invariant
            n == text@.len(),
            i <= n,
            escaped@ == if inside {
                escape_inside_attribute(text@.take(i as int))
            } else {
                escape_outside_attribute(text@.take(i as int))
            },
        decreases n - i,
    {
        let c = text.get_char(i);
        proof {
            assert(text@.take(i + 1).drop_last() =~= text@.take(i as int));
            assert(text@.take(i + 1).last() == c);
        }
        if c == '&' {
            escaped.append("&amp;");
        } else if c == '<' {
            escaped.append("&lt;");
        } else if c == '>' {
            escaped.append("&gt;");
        } else if inside && c == '"' {
            escaped.append("&quot;");
        } else if inside && c == '\'' {
            escaped.append("&#39;");
        } else {
            let single = text.substring_char(i, i + 1);
            assert(single@ =~= seq![c]);
            escaped.append(single);
        }
        i = i + 1;
    }
    assert(text@.take(n as int) =~= text@);
    escaped
}

} // verus!
