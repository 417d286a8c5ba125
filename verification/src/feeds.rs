use vstd::prelude::*;

use crate::text::{join, lemma_join_push, push_joined_strings, views};

pub mod atom;
pub mod podcast_rss;
pub mod rss;

verus! {

/// Which kinds of feed are generated for the site.
#[derive(Clone, Copy, Debug, PartialEq, Eq, Structural)]
pub struct Feeds {
    pub atom: bool,
    pub generic_rss: bool,
    pub media_rss: bool,
    pub podcast_rss: bool,
}

pub const ATOM_FILENAME: &'static str = "feed.atom";

pub const GENERIC_RSS_FILENAME: &'static str = "feed.rss";

pub const MEDIA_RSS_FILENAME: &'static str = "media.rss";

pub const PODCAST_RSS_FILENAME: &'static str = "podcast.rss";

/// The `<link>` tag that points browsers to a feed, laid out as it stands
/// in the page's head.
pub open spec fn feed_link_tag(mime: Seq<char>, title: Seq<char>, href: Seq<char>) -> Seq<char> {
    "\n                <link rel=\"alternate\" type=\""@ + mime + "\" title=\""@ + title
        + "\" href=\""@ + href + "\">\n            "@
}

/// The `<link>` tags of the enabled feeds, in the order Atom, generic RSS,
/// media RSS, podcast RSS.
pub open spec fn feed_link_tags(feeds: Feeds, root_prefix: Seq<char>, t_generic_rss: Seq<char>) -> Seq<
    Seq<char>,
> {
    (if feeds.atom {
        seq![feed_link_tag("application/atom+xml"@, "Atom"@, root_prefix + ATOM_FILENAME@)]
    } else {
        seq![]
    }) + (if feeds.generic_rss {
        seq![feed_link_tag("application/rss+xml"@, t_generic_rss, root_prefix + GENERIC_RSS_FILENAME@)]
    } else {
        seq![]
    }) + (if feeds.media_rss {
        seq![feed_link_tag("application/rss+xml"@, "Media RSS"@, root_prefix + MEDIA_RSS_FILENAME@)]
    } else {
        seq![]
    }) + (if feeds.podcast_rss {
        seq![feed_link_tag("application/rss+xml"@, "Podcast RSS"@, root_prefix + PODCAST_RSS_FILENAME@)]
    } else {
        seq![]
    })
}

fn push_feed_link_tag(
    tags: &mut String,
    count: &mut usize,
    mime: &str,
    title: &str,
    root_prefix: &str,
    filename: &str,
    Ghost(done): Ghost<Seq<Seq<char>>>,
)
    requires
        old(tags)@ == join(done, "\n"@),
        *old(count) == done.len(),
        done.len() < 4,
    ensures
        final(tags)@ == join(done.push(feed_link_tag(mime@, title@, root_prefix@ + filename@)), "\n"@),
        *final(count) == done.len() + 1,
{
    proof {
        lemma_join_push(done, "\n"@, feed_link_tag(mime@, title@, root_prefix@ + filename@));
    }
    if *count > 0 {
        tags.append("\n");
    }
    tags.append("\n                <link rel=\"alternate\" type=\"");
    tags.append(mime);
    tags.append("\" title=\"");
    tags.append(title);
    tags.append("\" href=\"");
    tags.append(root_prefix);
    tags.append(filename);
    tags.append("\">\n            ");
    *count = *count + 1;
}

impl Feeds {
    /// Every kind of feed that is implemented (media RSS is not yet).
    pub fn all() -> (feeds: Feeds)
        ensures
            feeds == (Feeds { atom: true, generic_rss: true, media_rss: false, podcast_rss: true }),
    {
        Feeds { atom: true, generic_rss: true, media_rss: false, podcast_rss: true }
    }

    /// Only the Atom feed.
    pub fn atom_only() -> (feeds: Feeds)
        ensures
            feeds == (Feeds { atom: true, generic_rss: false, media_rss: false, podcast_rss: false }),
    {
        Feeds { atom: true, generic_rss: false, media_rss: false, podcast_rss: false }
    }

    /// The feeds generated when nothing else is configured: Atom and generic RSS.
    pub fn default_feeds() -> (feeds: Feeds)
        ensures
            feeds == (Feeds { atom: true, generic_rss: true, media_rss: false, podcast_rss: false }),
    {
        Feeds { atom: true, generic_rss: true, media_rss: false, podcast_rss: false }
    }

    /// No feeds at all.
    pub fn disabled() -> (feeds: Feeds)
        ensures
            feeds == (Feeds { atom: false, generic_rss: false, media_rss: false, podcast_rss: false }),
    {
        Feeds { atom: false, generic_rss: false, media_rss: false, podcast_rss: false }
    }

    /// Only the generic RSS feed.
    pub fn generic_rss_only() -> (feeds: Feeds)
        ensures
            feeds == (Feeds { atom: false, generic_rss: true, media_rss: false, podcast_rss: false }),
    {
        Feeds { atom: false, generic_rss: true, media_rss: false, podcast_rss: false }
    }

    /// Only the media RSS feed, which is not implemented yet, so none.
    pub fn media_rss_only() -> (feeds: Feeds)
        ensures
            feeds == (Feeds { atom: false, generic_rss: false, media_rss: false, podcast_rss: false }),
    {
        Feeds { atom: false, generic_rss: false, media_rss: false, podcast_rss: false }
    }

    /// Only the podcast RSS feed.
    pub fn podcast_rss_only() -> (feeds: Feeds)
        ensures
            feeds == (Feeds { atom: false, generic_rss: false, media_rss: false, podcast_rss: true }),
    {
        Feeds { atom: false, generic_rss: false, media_rss: false, podcast_rss: true }
    }

    /// The `<link>` tags for the head of a page that point browsers to the
    /// site's feeds, joined with newlines; `t_generic_rss` is the title of
    /// the generic RSS feed in the site's language.
    pub fn meta_link_tags(&self, root_prefix: &str, t_generic_rss: &str) -> (tags: String)
        ensures
            tags@ == join(feed_link_tags(*self, root_prefix@, t_generic_rss@), "\n"@),
    {
        let mut tags = String::new();
        let mut count: usize = 0;
        let ghost mut done: Seq<Seq<char>> = seq![];
        if self.atom {
            push_feed_link_tag(&mut tags, &mut count, "application/atom+xml", "Atom", root_prefix, ATOM_FILENAME, Ghost(done));
            proof {
                done = done.push(feed_link_tag("application/atom+xml"@, "Atom"@, root_prefix@ + ATOM_FILENAME@));
            }
        }
        if self.generic_rss {
            push_feed_link_tag(&mut tags, &mut count, "application/rss+xml", t_generic_rss, root_prefix, GENERIC_RSS_FILENAME, Ghost(done));
            proof {
                done = done.push(feed_link_tag("application/rss+xml"@, t_generic_rss@, root_prefix@ + GENERIC_RSS_FILENAME@));
            }
        }
        if self.media_rss {
            push_feed_link_tag(&mut tags, &mut count, "application/rss+xml", "Media RSS", root_prefix, MEDIA_RSS_FILENAME, Ghost(done));
            proof {
                done = done.push(feed_link_tag("application/rss+xml"@, "Media RSS"@, root_prefix@ + MEDIA_RSS_FILENAME@));
            }
        }
        if self.podcast_rss {
            push_feed_link_tag(&mut tags, &mut count, "application/rss+xml", "Podcast RSS", root_prefix, PODCAST_RSS_FILENAME, Ghost(done));
            proof {
                done = done.push(feed_link_tag("application/rss+xml"@, "Podcast RSS"@, root_prefix@ + PODCAST_RSS_FILENAME@));
            }
        }
        assert(done =~= feed_link_tags(*self, root_prefix@, t_generic_rss@));
        tags
    }

    /// Whether any kind of feed is enabled.
    pub fn any_requested(&self) -> (any: bool)
        ensures
            any == (self.atom || self.generic_rss || self.media_rss || self.podcast_rss),
    {
        self.atom || self.generic_rss || self.media_rss || self.podcast_rss
    }
}

proof fn lemma_join_empty_iff(parts: Seq<Seq<char>>, sep: Seq<char>)
    requires
        forall|i: int| 0 <= i < parts.len() ==> (#[trigger] parts[i]).len() > 0,
    ensures
        (join(parts, sep).len() == 0) == (parts.len() == 0),
    decreases parts.len(),
{
    if parts.len() > 1 {
        lemma_join_empty_iff(parts.drop_last(), sep);
        assert(parts[parts.len() - 1].len() > 0);
    } else if parts.len() == 1 {
        assert(parts[0].len() > 0);
    }
}

/// A page's head links to feeds exactly where some feed is generated.
pub proof fn lemma_link_tags_exactly_when_requested(feeds: Feeds, root_prefix: Seq<char>, t_generic_rss: Seq<char>)
    ensures
        (join(feed_link_tags(feeds, root_prefix, t_generic_rss), "\n"@).len() > 0) == (feeds.atom || feeds.generic_rss
            || feeds.media_rss || feeds.podcast_rss),
{
    let tags = feed_link_tags(feeds, root_prefix, t_generic_rss);
    assert forall|i: int| 0 <= i < tags.len() implies (#[trigger] tags[i]).len() > 0 by {
        reveal_strlit("\n                <link rel=\"alternate\" type=\"");
    }
    lemma_join_empty_iff(tags, "\n"@);
}

/// How a feed titles a release: the names of its main artists (and, where
/// the catalog shows support artists and there are any, theirs after them),
/// joined with commas, then a dash and the release's title.
pub open spec fn spec_artists_and_title(
    main: Seq<Seq<char>>,
    support: Seq<Seq<char>>,
    show_support_artists: bool,
    title: Seq<char>,
) -> Seq<char> {
    join(main, ", "@) + (if show_support_artists && support.len() > 0 {
        ", "@ + join(support, ", "@)
    } else {
        seq![]
    }) + " \u{2013} "@ + title
}

/// How a feed titles a release, from its artists' names and its title.
pub fn artists_and_title(
    main_artists: &Vec<String>,
    support_artists: &Vec<String>,
    show_support_artists: bool,
    title: &str,
) -> (text: String)
    ensures
        text@ == spec_artists_and_title(views(main_artists@), views(support_artists@), show_support_artists, title@),
{
    let mut text = String::new();
    push_joined_strings(&mut text, main_artists, ", ");
    if show_support_artists && support_artists.len() > 0 {
        text.append(", ");
        push_joined_strings(&mut text, support_artists, ", ");
    }
    text.append(" \u{2013} ");
    text.append(title);
    proof {
        assert(views(support_artists@).len() == support_artists@.len());
    }
    text
}

} // verus!
