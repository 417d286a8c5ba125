//! The Atom feed of the catalog's public releases (see
//! https://datatracker.ietf.org/doc/html/rfc4287). Names, titles and
//! texts are escaped for html where the markup holds them.

use vstd::prelude::*;

use crate::html::{escape_outside_attribute, html_escape_outside_attribute};
use crate::text::{join, opt_view, push_joined_strings, views};

verus! {

/// The `<uri>` of an entry's author: the artist's page on the site where
/// the artist is featured there, else the artist's external page where
/// there is one, else nothing.
pub open spec fn author_uri(featured: bool, page_url: Seq<char>, external_page: Option<Seq<char>>) -> Seq<char> {
    if featured {
        "<uri>"@ + page_url + "</uri>"@
    } else {
        match external_page {
            Some(link) => "<uri>"@ + link + "</uri>"@,
            None => seq![],
        }
    }
}

/// An entry's `<author>` element, with the artist's name escaped.
pub open spec fn author_markup(name: Seq<char>, uri: Seq<char>) -> Seq<char> {
    "<author>\n    <name>"@ + escape_outside_attribute(name) + "</name>\n    "@ + uri + "\n</author>\n"@
}

/// The `<author>` element for an artist of a release.
pub fn author(name: &str, featured: bool, page_url: &str, external_page: &Option<String>) -> (markup: String)
    ensures
        markup@ == author_markup(name@, author_uri(featured, page_url@, opt_view(*external_page))),
{
    let mut markup = String::new();
    markup.append("<author>\n    <name>");
    markup.append(html_escape_outside_attribute(name).as_str());
    markup.append("</name>\n    ");
    if featured {
        markup.append("<uri>");
        markup.append(page_url);
        markup.append("</uri>");
    } else {
        match external_page {
            Some(link) => {
                markup.append("<uri>");
                markup.append(link.as_str());
                markup.append("</uri>");
            },
            None => {},
        }
    }
    markup.append("\n</author>\n");
    markup
}

/// What an Atom entry tells of a release.
pub struct AtomEntry {
    /// The `<author>` elements of the release's main artists, in order.
    pub main_authors: Vec<String>,
    /// The `<author>` elements of the release's support artists, in order.
    pub support_authors: Vec<String>,
    /// Whether the catalog shows support artists.
    pub show_support_artists: bool,
    /// The URL of the release's page.
    pub release_url: String,
    /// The release's artists and title (see `artists_and_title`).
    pub title: String,
    pub synopsis: Option<String>,
    /// The release's longer text, as HTML.
    pub more_html: Option<String>,
    /// When the site was built, in RFC 3339 form.
    pub updated: String,
}

/// An entry's summary: the synopsis where there is one, else the longer
/// text as HTML where there is one, else nothing; either escaped.
pub open spec fn summary_markup(synopsis: Option<Seq<char>>, more_html: Option<Seq<char>>) -> Seq<char> {
    match synopsis {
        Some(s) => "<summary>"@ + escape_outside_attribute(s) + "</summary>"@,
        None => match more_html {
            Some(m) => "<summary type=\"html\">"@ + escape_outside_attribute(m) + "</summary>"@,
            None => seq![],
        },
    }
}

/// The authors of an entry: the main artists, then the support artists
/// where the catalog shows them.
pub open spec fn entry_authors(e: AtomEntry) -> Seq<Seq<char>> {
    views(e.main_authors@) + if e.show_support_artists {
        views(e.support_authors@)
    } else {
        seq![]
    }
}

/// The `<entry>` element of a release.
pub open spec fn entry_markup(e: AtomEntry) -> Seq<char> {
    "<entry>\n    "@ + join(entry_authors(e), "\n"@) + "\n    <id>"@ + e.release_url@ + "</id>\n    <link href=\""@
        + e.release_url@ + "\" rel=\"alternate\"/>\n    <title>"@ + escape_outside_attribute(e.title@) + "</title>\n    "@
        + summary_markup(opt_view(e.synopsis), opt_view(e.more_html)) + "\n    <updated>"@
        + e.updated@ + "</updated>\n</entry>\n"@
}

fn push_clones(out: &mut Vec<String>, items: &Vec<String>)
    ensures
        views(final(out)@) == views(old(out)@) + views(items@),
{
    let ghost start = views(out@);
    let mut i: usize = 0;
    while i < items.len()
        invariant
            i <= items@.len(),
            views(out@) == start + views(items@.take(i as int)),
        decreases items@.len() - i,
    {
        let ghost before = out@;
        out.push(items[i].clone());
        proof {
            assert(views(out@) =~= views(before).push(items@[i as int]@));
            assert(views(items@.take(i + 1)) =~= views(items@.take(i as int)).push(items@[i as int]@));
        }
        i = i + 1;
    }
    assert(items@.take(items@.len() as int) =~= items@);
}

fn push_summary(out: &mut String, synopsis: &Option<String>, more_html: &Option<String>)
    ensures
        final(out)@ == old(out)@ + summary_markup(opt_view(*synopsis), opt_view(*more_html)),
{
    match synopsis {
        Some(s) => {
            out.append("<summary>");
            out.append(html_escape_outside_attribute(s.as_str()).as_str());
            out.append("</summary>");
        },
        None => match more_html {
            Some(m) => {
                out.append("<summary type=\"html\">");
                out.append(html_escape_outside_attribute(m.as_str()).as_str());
                out.append("</summary>");
            },
            None => {},
        },
    }
}

/// The `<entry>` element of a release.
pub fn entry(e: &AtomEntry) -> (markup: String)
    ensures
        markup@ == entry_markup(*e),
{
    let mut authors: Vec<String> = Vec::new();
    push_clones(&mut authors, &e.main_authors);
    if e.show_support_artists {
        push_clones(&mut authors, &e.support_authors);
    }
    assert(views(authors@) =~= entry_authors(*e));
    let mut markup = String::new();
    markup.append("<entry>\n    ");
    push_joined_strings(&mut markup, &authors, "\n");
    markup.append("\n    <id>");
    markup.append(e.release_url.as_str());
    markup.append("</id>\n    <link href=\"");
    markup.append(e.release_url.as_str());
    markup.append("\" rel=\"alternate\"/>\n    <title>");
    markup.append(html_escape_outside_attribute(e.title.as_str()).as_str());
    markup.append("</title>\n    ");
    push_summary(&mut markup, &e.synopsis, &e.more_html);
    markup.append("\n    <updated>");
    markup.append(e.updated.as_str());
    markup.append("</updated>\n</entry>\n");
    assert(markup@ =~= entry_markup(*e));
    markup
}

/// What the Atom feed tells of the catalog.
pub struct AtomFeed {
    /// Whether the catalog is in label mode (and so has no single author).
    pub label_mode: bool,
    /// The name of the catalog's artist, where it has one.
    pub artist_name: Option<String>,
    /// The generator's detailed version.
    pub version_detailed: String,
    /// The generator's name and version as the feed states it.
    pub generator_info: String,
    /// The URL of the site's home page.
    pub site_url: String,
    /// The URL of the feed itself.
    pub feed_url: String,
    /// The URL of the catalog's home image in feed size, where it has one.
    pub logo_url: Option<String>,
    pub synopsis: Option<String>,
    /// The catalog's title.
    pub title: String,
    /// When the site was built, in RFC 3339 form.
    pub updated: String,
}

/// The feed's `<author>`: the catalog's artist, except in label mode.
pub open spec fn feed_author(label_mode: bool, artist_name: Option<Seq<char>>) -> Seq<char> {
    if label_mode {
        seq![]
    } else {
        match artist_name {
            Some(name) => "<author>\n    <name>"@ + escape_outside_attribute(name) + "</name>\n</author>\n"@,
            None => seq![],
        }
    }
}

/// The feed's `<logo>`, where there is one.
pub open spec fn logo_markup(logo_url: Option<Seq<char>>) -> Seq<char> {
    match logo_url {
        Some(url) => "<logo>"@ + url + "</logo>"@,
        None => seq![],
    }
}

/// The feed's `<subtitle>`: the catalog's synopsis, escaped, where there is
/// one.
pub open spec fn subtitle_markup(synopsis: Option<Seq<char>>) -> Seq<char> {
    match synopsis {
        Some(s) => "<subtitle>"@ + escape_outside_attribute(s) + "</subtitle>"@,
        None => seq![],
    }
}

/// The complete Atom feed, with the given entries.
pub open spec fn spec_atom(f: AtomFeed, entries: Seq<Seq<char>>) -> Seq<char> {
    "<?xml version=\"1.0\" encoding=\"utf-8\"?>\n<feed xmlns=\"http://www.w3.org/2005/Atom\">\n    "@ + feed_author(
        f.label_mode,
        opt_view(f.artist_name),
    ) + "\n    <generator uri=\"https://simonrepp.com/faircamp\" version=\""@ + f.version_detailed@
        + "\">\n        "@ + f.generator_info@ + "\n    </generator>\n    <id>"@ + f.site_url@
        + "</id>\n    <link href=\""@ + f.feed_url@ + "\" rel=\"self\"/>\n    "@ + logo_markup(opt_view(f.logo_url))
        + "\n    "@ + subtitle_markup(opt_view(f.synopsis)) + "\n    <title>"@ + escape_outside_attribute(f.title@)
        + "</title>\n    <updated>"@ + f.updated@ + "</updated>\n    "@ + join(entries, "\n"@) + "\n</feed>\n"@
}

fn push_feed_author(out: &mut String, label_mode: bool, artist_name: &Option<String>)
    ensures
        final(out)@ == old(out)@ + feed_author(label_mode, opt_view(*artist_name)),
{
    if !label_mode {
        match artist_name {
            Some(name) => {
                out.append("<author>\n    <name>");
                out.append(html_escape_outside_attribute(name.as_str()).as_str());
                out.append("</name>\n</author>\n");
            },
            None => {},
        }
    }
}

/// The complete Atom feed of the catalog, with the entries of its public
/// releases.
pub fn atom(feed: &AtomFeed, entries: &Vec<String>) -> (xml: String)
    ensures
        xml@ == spec_atom(*feed, views(entries@)),
{
    let mut xml = String::new();
    xml.append("<?xml version=\"1.0\" encoding=\"utf-8\"?>\n<feed xmlns=\"http://www.w3.org/2005/Atom\">\n    ");
    push_feed_author(&mut xml, feed.label_mode, &feed.artist_name);
    xml.append("\n    <generator uri=\"https://simonrepp.com/faircamp\" version=\"");
    xml.append(feed.version_detailed.as_str());
    xml.append("\">\n        ");
    xml.append(feed.generator_info.as_str());
    xml.append("\n    </generator>\n    <id>");
    xml.append(feed.site_url.as_str());
    xml.append("</id>\n    <link href=\"");
    xml.append(feed.feed_url.as_str());
    xml.append("\" rel=\"self\"/>\n    ");
    match &feed.logo_url {
        Some(url) => {
            xml.append("<logo>");
            xml.append(url.as_str());
            xml.append("</logo>");
        },
        None => {},
    }
    xml.append("\n    ");
    match &feed.synopsis {
        Some(s) => {
            xml.append("<subtitle>");
            xml.append(html_escape_outside_attribute(s.as_str()).as_str());
            xml.append("</subtitle>");
        },
        None => {},
    }
    xml.append("\n    <title>");
    xml.append(html_escape_outside_attribute(feed.title.as_str()).as_str());
    xml.append("</title>\n    <updated>");
    xml.append(feed.updated.as_str());
    xml.append("</updated>\n    ");
    push_joined_strings(&mut xml, entries, "\n");
    xml.append("\n</feed>\n");
    assert(xml@ =~= spec_atom(*feed, views(entries@)));
    xml
}

} // verus!
