use vstd::prelude::*;

use std::path::PathBuf;

use crate::text::str_equal;

verus! {

/// The favicon of the site.
pub enum Favicon {
    Custom { absolute_path: PathBuf, extension: String },
    Default,
    /// No favicon at all.
    Disabled,
}

/// The name for what `format!("{:?}", s)` gives a string: the string in
/// double quotes, with quotes, backslashes and unprintable characters
/// escaped.
pub uninterp spec fn debug_repr(s: Seq<char>) -> Seq<char>;

/// `format!("{:?}", s)` of a string.
#[verifier::external_body]
fn debug_string(s: &str) -> (repr: String)
    ensures
        repr@ == debug_repr(s@),
{
    format!("{:?}", s)
}

/// The error for a custom favicon with an extension other than ico/png.
pub open spec fn unsupported_extension_message(extension: Seq<char>) -> Seq<char> {
    "Favicon file extension "@ + debug_repr(extension) + " not supported (only .ico/.png is supported)"@
}

pub const FAVICON_DARK_PNG_FILENAME: &'static str = "favicon_dark.png";

pub const FAVICON_LIGHT_PNG_FILENAME: &'static str = "favicon_light.png";

pub const FAVICON_SVG_FILENAME: &'static str = "favicon.svg";

/// The content hashes that the favicon urls carry to bust caches: of the
/// custom favicon (once written) and of the three default favicon files.
pub struct FaviconHashes {
    pub custom: Option<String>,
    pub dark_png: String,
    pub light_png: String,
    pub svg: String,
}

/// The `<link>` tag of a custom favicon.
pub open spec fn custom_header_tag(root_prefix: Seq<char>, extension: Seq<char>, hash: Seq<char>) -> Seq<
    char,
> {
    "<link href=\""@ + root_prefix + "favicon."@ + extension + "?"@ + hash + "\" rel=\"icon\">"@
}

/// The `<link>` tags of the default favicon: an svg, and pngs for light and
/// dark color schemes, one per line.
pub open spec fn default_header_tags(root_prefix: Seq<char>, hashes: FaviconHashes) -> Seq<char> {
    "<link href=\""@ + root_prefix + FAVICON_SVG_FILENAME@ + "?"@ + hashes.svg@
        + "\" rel=\"icon\" type=\"image/svg+xml\">\n<link href=\""@ + root_prefix
        + FAVICON_LIGHT_PNG_FILENAME@ + "?"@ + hashes.light_png@
        + "\" rel=\"icon\" type=\"image/png\" media=\"(prefers-color-scheme: light)\">\n<link href=\""@
        + root_prefix + FAVICON_DARK_PNG_FILENAME@ + "?"@ + hashes.dark_png@
        + "\" rel=\"icon\" type=\"image/png\"  media=\"(prefers-color-scheme: dark)\">\n"@
}

impl Favicon {
    /// The tags for the head of a page that point to the favicon, if the
    /// site has one. A custom favicon's hash is known once it is written.
    pub fn header_tags(&self, hashes: &FaviconHashes, root_prefix: &str) -> (tags: Option<String>)
        requires
            self is Custom ==> hashes.custom is Some,
        ensures
            match self {
                Favicon::Custom { extension, .. } => tags matches Some(t) && t@ == custom_header_tag(
                    root_prefix@,
                    extension@,
                    hashes.custom->0@,
                ),
                Favicon::Default => tags matches Some(t) && t@ == default_header_tags(root_prefix@, *hashes),
                Favicon::Disabled => tags is None,
            },
    {
        match self {
            Favicon::Custom { extension, .. } => {
                let hash = match &hashes.custom {
                    Some(hash) => hash,
                    None => {
                        return None;
                    },
                };
                let mut tags = String::from_str("<link href=\"");
                tags.append(root_prefix);
                tags.append("favicon.");
                tags.append(extension.as_str());
                tags.append("?");
                tags.append(hash.as_str());
                tags.append("\" rel=\"icon\">");
                Some(tags)
            },
            Favicon::Default => {
                let mut tags = String::from_str("<link href=\"");
                tags.append(root_prefix);
                tags.append(FAVICON_SVG_FILENAME);
                tags.append("?");
                tags.append(hashes.svg.as_str());
                tags.append("\" rel=\"icon\" type=\"image/svg+xml\">\n<link href=\"");
                tags.append(root_prefix);
                tags.append(FAVICON_LIGHT_PNG_FILENAME);
                tags.append("?");
                tags.append(hashes.light_png.as_str());
                tags.append("\" rel=\"icon\" type=\"image/png\" media=\"(prefers-color-scheme: light)\">\n<link href=\"");
                tags.append(root_prefix);
                tags.append(FAVICON_DARK_PNG_FILENAME);
                tags.append("?");
                tags.append(hashes.dark_png.as_str());
                tags.append("\" rel=\"icon\" type=\"image/png\"  media=\"(prefers-color-scheme: dark)\">\n");
                Some(tags)
            },
            Favicon::Disabled => None,
        }
    }

    /// A custom favicon read from `absolute_path`, whose extension (as read
    /// from the path) is `extension`; only .ico and .png files are accepted.
    pub fn custom(absolute_path: PathBuf, extension: Option<String>) -> (favicon: Result<Favicon, String>)
        ensures
            match extension {
                Some(e) => if e@ == "ico"@ || e@ == "png"@ {
                    favicon matches Ok(Favicon::Custom { absolute_path: p, extension: x }) && p
                        == absolute_path && x@ == e@
                } else {
                    favicon matches Err(message) && message@ == unsupported_extension_message(e@)
                },
                None => favicon matches Err(message) && message@
                    == "Custom favicon file needs to have a file extension"@,
            },
    {
        match extension {
            Some(extension) => {
                if str_equal(extension.as_str(), "ico") || str_equal(extension.as_str(), "png") {
                    Ok(Favicon::Custom { extension, absolute_path })
                } else {
                    let mut message = String::from_str("Favicon file extension ");
                    let repr = debug_string(extension.as_str());
                    message.append(repr.as_str());
                    message.append(" not supported (only .ico/.png is supported)");
                    assert(message@ =~= unsupported_extension_message(extension@));
                    Err(message)
                }
            },
            None => Err(String::from_str("Custom favicon file needs to have a file extension")),
        }
    }
}

} // verus!
