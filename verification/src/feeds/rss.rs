//! The RSS 2.0 markup shared by the generic and the podcast feed (see
//! https://www.rssboard.org/rss-specification): the channel with its
//! items, to which each feed adds markup of its own. The longer texts (as
//! HTML) are escaped here; the texts noted as such come in escaped twice,
//! as RSS readers unescape them once more.

use vstd::prelude::*;

use crate::html::{escape_outside_attribute, html_escape_outside_attribute};
use crate::text::{decimal_string, join, opt_view, push_decimal, push_joined_strings, views};

verus! {

/// The catalog's home image as the channel shows it.
pub struct RssImage {
    /// The width and height of the image in feed size.
    pub edge_size: u32,
    /// The URL of the image in feed size.
    pub url: String,
    /// The image's description, escaped twice, where it has one.
    pub description_double_escaped: Option<String>,
}

/// What the channel tells of the catalog.
pub struct RssChannel {
    /// The URL of the feed itself.
    pub feed_url: String,
    /// The catalog's synopsis, escaped twice, where it has one.
    pub synopsis_double_escaped: Option<String>,
    /// The catalog's longer text, as HTML, where it has one.
    pub more_html: Option<String>,
    /// The generator's version for display.
    pub version_display: String,
    /// The generator's name and version as the feed states it.
    pub generator_info: String,
    pub image: Option<RssImage>,
    /// The site's language code.
    pub language: String,
    /// When the site was built, in RFC 2822 form.
    pub last_build_date: String,
    /// The URL of the site's home page.
    pub link: String,
    /// The catalog's title, escaped twice.
    pub title_double_escaped: String,
}

/// The channel's description, which RSS demands: the synopsis where there
/// is one, else the longer text (escaped), else the generator's name and version.
pub open spec fn channel_description(
    synopsis_double_escaped: Option<Seq<char>>,
    more_html: Option<Seq<char>>,
    version_display: Seq<char>,
) -> Seq<char> {
    match synopsis_double_escaped {
        Some(s) => s,
        None => match more_html {
            Some(m) => escape_outside_attribute(m),
            None => "Faircamp "@ + version_display,
        },
    }
}

/// The channel's `<image>` element, titled by the image's description where
/// it has one, else by the channel's title.
pub open spec fn image_markup(image: RssImage, link: Seq<char>, channel_title: Seq<char>) -> Seq<char> {
    let title = match image.description_double_escaped {
        Some(d) => d@,
        None => channel_title,
    };
    "<image>\n    <height>"@ + decimal_string(image.edge_size as nat) + "</height>\n    <link>"@ + link
        + "</link>\n    <title>"@ + title + "</title>\n    <url>"@ + image.url@ + "</url>\n    <width>"@
        + decimal_string(image.edge_size as nat) + "</width>\n</image>\n"@
}

/// The complete feed: the channel with its own and the feed's namespaces,
/// the feed's extension markup, and the items.
pub open spec fn spec_rss(
    c: RssChannel,
    extra_namespaces: Seq<Seq<char>>,
    channel_extensions: Seq<char>,
    items: Seq<Seq<char>>,
) -> Seq<char> {
    "<?xml version=\"1.0\" encoding=\"UTF-8\"?>\n<rss version=\"2.0\" xmlns:atom=\"http://www.w3.org/2005/Atom\" "@
        + join(extra_namespaces, " "@) + ">\n    <channel>\n        <atom:link href=\""@ + c.feed_url@
        + "\" rel=\"self\" type=\"application/rss+xml\"/>\n        <description>"@ + channel_description(
        opt_view(c.synopsis_double_escaped),
        opt_view(c.more_html),
        c.version_display@,
    ) + "</description>\n        <generator>"@ + c.generator_info@ + "</generator>\n        "@ + (match c.image {
        Some(image) => image_markup(image, c.link@, c.title_double_escaped@),
        None => seq![],
    }) + "\n        <language>"@ + c.language@ + "</language>\n        <lastBuildDate>"@ + c.last_build_date@
        + "</lastBuildDate>\n        <link>"@ + c.link@ + "</link>\n        <title>"@ + c.title_double_escaped@
        + "</title>\n        "@ + channel_extensions + "\n        "@ + join(items, "\n"@) + "\n    </channel>\n</rss>\n"@
}

fn push_image(out: &mut String, image: &RssImage, link: &str, channel_title: &str)
    ensures
        final(out)@ == old(out)@ + image_markup(*image, link@, channel_title@),
{
    let ghost start = out@;
    out.append("<image>\n    <height>");
    push_decimal(out, image.edge_size as u64);
    out.append("</height>\n    <link>");
    out.append(link);
    out.append("</link>\n    <title>");
    match &image.description_double_escaped {
        Some(d) => out.append(d.as_str()),
        None => out.append(channel_title),
    }
    out.append("</title>\n    <url>");
    out.append(image.url.as_str());
    out.append("</url>\n    <width>");
    push_decimal(out, image.edge_size as u64);
    out.append("</width>\n</image>\n");
    assert(out@ =~= start + image_markup(*image, link@, channel_title@));
}

/// The complete RSS feed of the catalog, with the namespaces and the
/// channel markup that the particular feed adds, and the items of its
/// public releases.
pub fn rss(
    channel: &RssChannel,
    extra_namespaces: &Vec<String>,
    channel_extensions: &str,
    items: &Vec<String>,
) -> (xml: String)
    ensures
        xml@ == spec_rss(*channel, views(extra_namespaces@), channel_extensions@, views(items@)),
{
    let mut xml = String::new();
    xml.append("<?xml version=\"1.0\" encoding=\"UTF-8\"?>\n<rss version=\"2.0\" xmlns:atom=\"http://www.w3.org/2005/Atom\" ");
    push_joined_strings(&mut xml, extra_namespaces, " ");
    xml.append(">\n    <channel>\n        <atom:link href=\"");
    xml.append(channel.feed_url.as_str());
    xml.append("\" rel=\"self\" type=\"application/rss+xml\"/>\n        <description>");
    match &channel.synopsis_double_escaped {
        Some(s) => xml.append(s.as_str()),
        None => match &channel.more_html {
            Some(m) => xml.append(html_escape_outside_attribute(m.as_str()).as_str()),
            None => {
                xml.append("Faircamp ");
                xml.append(channel.version_display.as_str());
            },
        },
    }
    xml.append("</description>\n        <generator>");
    xml.append(channel.generator_info.as_str());
    xml.append("</generator>\n        ");
    match &channel.image {
        Some(image) => push_image(&mut xml, image, channel.link.as_str(), channel.title_double_escaped.as_str()),
        None => {},
    }
    xml.append("\n        <language>");
    xml.append(channel.language.as_str());
    xml.append("</language>\n        <lastBuildDate>");
    xml.append(channel.last_build_date.as_str());
    xml.append("</lastBuildDate>\n        <link>");
    xml.append(channel.link.as_str());
    xml.append("</link>\n        <title>");
    xml.append(channel.title_double_escaped.as_str());
    xml.append("</title>\n        ");
    xml.append(channel_extensions);
    xml.append("\n        ");
    push_joined_strings(&mut xml, items, "\n");
    xml.append("\n    </channel>\n</rss>\n");
    assert(xml@ =~= spec_rss(*channel, views(extra_namespaces@), channel_extensions@, views(items@)));
    xml
}

/// What an item tells of a release.
pub struct RssItem {
    /// The release's synopsis, escaped twice, where it has one.
    pub synopsis_double_escaped: Option<String>,
    /// The release's longer text, as HTML, where it has one.
    pub more_html: Option<String>,
    /// The URL of the release's page.
    pub link: String,
    /// The release's artists and title (see `artists_and_title`), escaped
    /// twice.
    pub title_double_escaped: String,
}

/// An item's `<description>`: the synopsis where there is one, else the
/// longer text where there is one, else nothing.
pub open spec fn item_description(synopsis_double_escaped: Option<Seq<char>>, more_html: Option<Seq<char>>) -> Seq<char> {
    match synopsis_double_escaped {
        Some(s) => "<description>"@ + s + "</description>"@,
        None => match more_html {
            Some(m) => "<description>"@ + escape_outside_attribute(m) + "</description>"@,
            None => seq![],
        },
    }
}

/// The `<item>` element of a release, with the markup the particular feed
/// adds to it.
pub open spec fn item_markup(i: RssItem, extensions: Seq<char>) -> Seq<char> {
    "<item>\n    "@ + item_description(opt_view(i.synopsis_double_escaped), opt_view(i.more_html))
        + "\n    <guid>"@ + i.link@ + "</guid>\n    <link>"@ + i.link@ + "</link>\n    <title>"@
        + i.title_double_escaped@ + "</title>\n    "@ + extensions + "\n</item>\n"@
}

/// The `<item>` element of a release.
pub fn item(release_item: &RssItem, extensions: &str) -> (markup: String)
    ensures
        markup@ == item_markup(*release_item, extensions@),
{
    let mut markup = String::new();
    markup.append("<item>\n    ");
    match &release_item.synopsis_double_escaped {
        Some(s) => {
            markup.append("<description>");
            markup.append(s.as_str());
            markup.append("</description>");
        },
        None => match &release_item.more_html {
            Some(m) => {
                markup.append("<description>");
                markup.append(html_escape_outside_attribute(m.as_str()).as_str());
                markup.append("</description>");
            },
            None => {},
        },
    }
    markup.append("\n    <guid>");
    markup.append(release_item.link.as_str());
    markup.append("</guid>\n    <link>");
    markup.append(release_item.link.as_str());
    markup.append("</link>\n    <title>");
    markup.append(release_item.title_double_escaped.as_str());
    markup.append("</title>\n    ");
    markup.append(extensions);
    markup.append("\n</item>\n");
    assert(markup@ =~= item_markup(*release_item, extensions@));
    markup
}

} // verus!
