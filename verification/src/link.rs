use vstd::prelude::*;

use crate::text::starts_with;

verus! {

/// A link shown on an artist, release or track page.
#[derive(Clone, Debug)]
pub enum Link {
    Anchor {
        /// Stored including the leading '#'
        id: String,
        /// A mandatory, user-supplied label
        label: String,
    },
    Full {
        /// Used with rel="me" linking, when the link must be present to verify
        /// identity but should not be displayed.
        hidden: bool,
        /// A user-supplied label or an automatically constructed fallback
        /// (the url without http(s):// and without trailing slash).
        label: String,
        /// Indicates rel="me" linking
        rel_me: bool,
        url: String,
    },
}

/// A link as plain values.
pub enum LinkView {
    Anchor { id: Seq<char>, label: Seq<char> },
    Full { hidden: bool, label: Seq<char>, rel_me: bool, url: Seq<char> },
}

impl View for Link {
    type V = LinkView;

    open spec fn view(&self) -> LinkView {
        match self {
            Link::Anchor { id, label } => LinkView::Anchor { id: id@, label: label@ },
            Link::Full { hidden, label, rel_me, url } => LinkView::Full {
                hidden: *hidden,
                label: label@,
                rel_me: *rel_me,
                url: url@,
            },
        }
    }
}

/// The views of a sequence of links.
pub open spec fn link_views(links: Seq<Link>) -> Seq<LinkView> {
    links.map_values(|l: Link| l@)
}

/// The url without a leading "https://" or "http://" and without a
/// trailing slash, as shown where no label is given.
pub open spec fn spec_pretty_display(url: Seq<char>) -> Seq<char> {
    let without_scheme = if starts_with(url, "https://"@) {
        url.skip(8)
    } else if starts_with(url, "http://"@) {
        url.skip(7)
    } else {
        url
    };
    if without_scheme.len() > 0 && without_scheme.last() == '/' {
        without_scheme.drop_last()
    } else {
        without_scheme
    }
}

/// The url without a leading "https://" or "http://" and without a
/// trailing slash.
pub fn pretty_display(url: &str) -> (display: String)
    ensures
        display@ == spec_pretty_display(url@),
{
    proof {
        reveal_strlit("https://");
        reveal_strlit("http://");
    }
    let len = url.unicode_len();
    let start: usize = if crate::text::starts_with_str(url, "https://") {
        8
    } else if crate::text::starts_with_str(url, "http://") {
        7
    } else {
        0
    };
    let end: usize = if len > start && url.get_char(len - 1) == '/' {
        len - 1
    } else {
        len
    };
    let shown = url.substring_char(start, end);
    let ghost without_scheme = url@.skip(start as int);
    assert(shown@ =~= spec_pretty_display(url@)) by {
        if end < len {
            assert(without_scheme.last() == url@[len - 1]);
            assert(shown@ =~= without_scheme.drop_last());
        } else {
            assert(shown@ =~= without_scheme);
        }
    }
    String::from_str(shown)
}

impl Link {
    /// A link to an anchor on the same page.
    pub fn anchor(id: String, label: String) -> (link: Link)
        ensures
            link == (Link::Anchor { id, label }),
    {
        Link::Anchor { id, label }
    }

    /// A full link; without a label, the url is shown without scheme and
    /// trailing slash.
    pub fn full(hidden: bool, label: Option<String>, rel_me: bool, url: String) -> (link: Link)
        ensures
            link matches Link::Full { hidden: h, label: l, rel_me: r, url: u } && h == hidden && r
                == rel_me && u == url && l@ == match label {
                Some(l) => l@,
                None => spec_pretty_display(url@),
            },
    {
        let label = match label {
            Some(label) => label,
            None => pretty_display(url.as_str()),
        };
        Link::Full { hidden, label, rel_me, url }
    }

    /// A visible link without rel="me" whose label is the url without
    /// scheme and trailing slash.
    pub fn url(url: &str) -> (link: Link)
        ensures
            link matches Link::Full { hidden: h, label: l, rel_me: r, url: u } && !h && !r && u@
                == url@ && l@ == spec_pretty_display(url@),
    {
        let hidden = false;
        let label = pretty_display(url);
        let rel_me = false;
        Link::Full { hidden, label, rel_me, url: String::from_str(url) }
    }
}

} // verus!
