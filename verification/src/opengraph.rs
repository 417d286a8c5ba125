use vstd::prelude::*;

use crate::html::{escape_inside_attribute, html_escape_inside_attribute};
use crate::text::{decimal_string, join, push_decimal, push_joined_strings, views};

verus! {

/// An Open Graph `meta` tag with `property` and `content`.
pub open spec fn og_tag(property: Seq<char>, content: Seq<char>) -> Seq<char> {
    "<meta property=\""@ + property + "\" content=\""@ + content + "\"/>"@
}

/// The `meta` tags of a page, in the order in which they are written; the
/// description, image description, site name and title are escaped for use
/// inside an attribute.
pub open spec fn og_tag_lines(
    description: Option<Seq<char>>,
    image: Option<OpenGraphImage>,
    image_alt: Option<Seq<char>>,
    language: Seq<char>,
    site_name: Seq<char>,
    title: Seq<char>,
    url: Seq<char>,
) -> Seq<Seq<char>> {
    let described = match description {
        Some(d) => seq![og_tag("og:description"@, escape_inside_attribute(d))],
        None => seq![],
    };
    let pictured = match image {
        Some(i) => seq![
            og_tag("og:image"@, i.url@),
            og_tag("og:image:height"@, decimal_string(i.height as nat)),
            og_tag("og:image:width"@, decimal_string(i.width as nat)),
        ],
        None => seq![],
    };
    let alt = match image_alt {
        Some(a) => seq![og_tag("og:image:alt"@, escape_inside_attribute(a))],
        None => seq![],
    };
    described + pictured + alt + seq![
        og_tag("og:locale"@, language),
        og_tag("og:site_name"@, escape_inside_attribute(site_name)),
        og_tag("og:title"@, escape_inside_attribute(title)),
        og_tag("og:type"@, "website"@),
        og_tag("og:url"@, url),
    ]
}

fn og_line(property: &str, content: &str) -> (line: String)
    ensures
        line@ == og_tag(property@, content@),
{
    let mut line = String::from_str("<meta property=\"");
    line.append(property);
    line.append("\" content=\"");
    line.append(content);
    line.append("\"/>");
    line
}

fn og_number_line(property: &str, content: u32) -> (line: String)
    ensures
        line@ == og_tag(property@, decimal_string(content as nat)),
{
    let mut line = String::from_str("<meta property=\"");
    line.append(property);
    line.append("\" content=\"");
    push_decimal(&mut line, content as u64);
    line.append("\"/>");
    line
}

/// An image for link previews (Open Graph).
#[derive(Clone, Debug)]
pub struct OpenGraphImage {
    pub height: u32,
    pub url: String,
    pub width: u32,
}

/// The Open Graph metadata of a page (see https://ogp.me/).
pub struct OpenGraphMeta {
    description: Option<String>,
    image: Option<OpenGraphImage>,
    image_alt: Option<String>,
    title: String,
    url: String,
}

impl OpenGraphMeta {
    pub closed spec fn spec_description(&self) -> Option<Seq<char>> {
        match self.description {
            Some(d) => Some(d@),
            None => None,
        }
    }

    pub closed spec fn spec_image(&self) -> Option<OpenGraphImage> {
        self.image
    }

    pub closed spec fn spec_image_alt(&self) -> Option<Seq<char>> {
        match self.image_alt {
            Some(d) => Some(d@),
            None => None,
        }
    }

    pub closed spec fn spec_title(&self) -> Seq<char> {
        self.title@
    }

    pub closed spec fn spec_url(&self) -> Seq<char> {
        self.url@
    }

    /// Sets the description.
    pub fn description(&mut self, description: &str)
        ensures
            final(self).spec_description() == Some(description@),
            final(self).spec_image() == old(self).spec_image(),
            final(self).spec_image_alt() == old(self).spec_image_alt(),
            final(self).spec_title() == old(self).spec_title(),
            final(self).spec_url() == old(self).spec_url(),
    {
        self.description = Some(String::from_str(description));
    }

    /// Sets the image.
    pub fn image(&mut self, image: OpenGraphImage)
        ensures
            final(self).spec_image() == Some(image),
            final(self).spec_description() == old(self).spec_description(),
            final(self).spec_image_alt() == old(self).spec_image_alt(),
            final(self).spec_title() == old(self).spec_title(),
            final(self).spec_url() == old(self).spec_url(),
    {
        self.image = Some(image);
    }

    /// Sets the description of the image.
    pub fn image_alt(&mut self, description: &str)
        ensures
            final(self).spec_image_alt() == Some(description@),
            final(self).spec_description() == old(self).spec_description(),
            final(self).spec_image() == old(self).spec_image(),
            final(self).spec_title() == old(self).spec_title(),
            final(self).spec_url() == old(self).spec_url(),
    {
        self.image_alt = Some(String::from_str(description));
    }

    /// Metadata with a title and url and nothing else.
    pub fn new(title: String, url: String) -> (meta: OpenGraphMeta)
        ensures
            meta.spec_title() == title@,
            meta.spec_url() == url@,
            meta.spec_description() is None,
            meta.spec_image() is None,
            meta.spec_image_alt() is None,
    {
        OpenGraphMeta { description: None, image: None, image_alt: None, title, url }
    }

    /// The `meta` tags for the page, one per line: description, image
    /// (url, height, width) and its description where there are any, then
    /// locale, site name, title, type and url. The description, the image
    /// description, the site name and the title are escaped for use inside
    /// an attribute.
    pub fn tags(&self, language: &str, site_name: &str) -> (tags: String)
        ensures
            tags@ == join(og_tag_lines(self.spec_description(), self.spec_image(), self.spec_image_alt(), language@, site_name@, self.spec_title(), self.spec_url()), "\n"@),
    {
        let mut lines: Vec<String> = Vec::new();
        if let Some(description) = &self.description {
            lines.push(og_line("og:description", html_escape_inside_attribute(description.as_str()).as_str()));
        }
        if let Some(image) = &self.image {
            lines.push(og_line("og:image", image.url.as_str()));
            lines.push(og_number_line("og:image:height", image.height));
            lines.push(og_number_line("og:image:width", image.width));
        }
        if let Some(image_alt) = &self.image_alt {
            lines.push(og_line("og:image:alt", html_escape_inside_attribute(image_alt.as_str()).as_str()));
        }
        lines.push(og_line("og:locale", language));
        lines.push(og_line("og:site_name", html_escape_inside_attribute(site_name).as_str()));
        lines.push(og_line("og:title", html_escape_inside_attribute(self.title.as_str()).as_str()));
        lines.push(og_line("og:type", "website"));
        lines.push(og_line("og:url", self.url.as_str()));
        proof {
            reveal_strlit("website");
            assert(views(lines@) =~= og_tag_lines(self.spec_description(), self.spec_image(), self.spec_image_alt(), language@, site_name@, self.spec_title(), self.spec_url()));
        }
        let mut tags = String::new();
        push_joined_strings(&mut tags, &lines, "\n");
        tags
    }
}

} // verus!
