//! The markup that the podcast feed adds to the shared RSS markup (see
//! https://github.com/Podcast-Standards-Project/PSP-1-Podcast-RSS-Specification):
//! each release is an episode, whose first track is its audio.

use vstd::prelude::*;

use crate::audio_format::{is_streaming_format, spec_family, AudioFormat, AudioFormatFamily};
use crate::html::{escape_outside_attribute, html_escape_outside_attribute};
use crate::text::{decimal_string, join, lemma_join_push, opt_view, push_decimal};

verus! {

/// The namespace from which the podcast's GUID is derived (see
/// https://github.com/Podcastindex-org/podcast-namespace/blob/main/docs/1.0.md#guid).
pub const PODCAST_NAMESPACE_UUID: &'static str = "ead4c236-bf58-58c6-a2c6-a6b28d128cb6";

/// The namespace of Apple's podcast elements.
pub const ITUNES_NAMESPACE: &'static str = "xmlns:itunes=\"http://www.itunes.com/dtds/podcast-1.0.dtd\"";

/// The namespace of the Podcast Index's elements.
pub const PODCAST_NAMESPACE: &'static str = "xmlns:podcast=\"https://podcastindex.org/namespace/1.0\"";

/// The MIME type of a streaming format's files.
pub open spec fn streaming_source_type(format: AudioFormat) -> Seq<char> {
    if spec_family(format) == AudioFormatFamily::Mp3 {
        "audio/mpeg"@
    } else {
        "audio/ogg; codecs=opus"@
    }
}

/// An episode's markup: the enclosure with its audio file, its duration,
/// and its image, on lines of their own.
pub open spec fn spec_item_extensions(
    filesize_bytes: nat,
    format: AudioFormat,
    track_url: Seq<char>,
    duration: Seq<char>,
    image_url: Seq<char>,
) -> Seq<char> {
    "<enclosure length=\""@ + decimal_string(filesize_bytes) + "\" type=\""@ + streaming_source_type(format)
        + "\" url=\""@ + track_url + "\"/>"@ + "\n"@ + "<itunes:duration>"@ + duration + "</itunes:duration>"@
        + "\n"@ + "<itunes:image href=\""@ + image_url + "\"/>"@
}

/// The markup of an episode: the file of its first track in `format`
/// (`filesize_bytes` large, at `track_url`), its duration as written, and
/// the URL of its cover.
pub fn item_extensions(
    filesize_bytes: u64,
    format: AudioFormat,
    track_url: &str,
    duration: &str,
    image_url: &str,
) -> (markup: String)
    requires
        is_streaming_format(format),
    ensures
        markup@ == spec_item_extensions(filesize_bytes as nat, format, track_url@, duration@, image_url@),
{
    let mut markup = String::new();
    markup.append("<enclosure length=\"");
    push_decimal(&mut markup, filesize_bytes);
    markup.append("\" type=\"");
    markup.append(format.source_type());
    markup.append("\" url=\"");
    markup.append(track_url);
    markup.append("\"/>");
    markup.append("\n");
    markup.append("<itunes:duration>");
    markup.append(duration);
    markup.append("</itunes:duration>");
    markup.append("\n");
    markup.append("<itunes:image href=\"");
    markup.append(image_url);
    markup.append("\"/>");
    assert(markup@ =~= spec_item_extensions(filesize_bytes as nat, format, track_url@, duration@, image_url@));
    markup
}

/// The parts of the podcast's channel markup: its author (the catalog's
/// artist's name, escaped, except in label mode), its image where there is one, and its
/// GUID.
pub open spec fn channel_extension_parts(
    label_mode: bool,
    artist_name: Option<Seq<char>>,
    image_url: Option<Seq<char>>,
    guid: Seq<char>,
) -> Seq<Seq<char>> {
    (if !label_mode && artist_name is Some {
        seq!["<itunes:author>"@ + escape_outside_attribute(artist_name.unwrap()) + "</itunes:author>"@]
    } else {
        seq![]
    }) + (match image_url {
        Some(url) => seq!["<itunes:image href=\""@ + url + "\"/>"@],
        None => seq![],
    }) + seq!["<podcast:guid>"@ + guid + "</podcast:guid>"@]
}

/// The podcast's channel markup, one element per line.
pub fn channel_extensions(
    label_mode: bool,
    artist_name: &Option<String>,
    image_url: &Option<String>,
    guid: &str,
) -> (markup: String)
    ensures
        markup@ == join(channel_extension_parts(label_mode, opt_view(*artist_name), opt_view(*image_url), guid@), "\n"@),
{
    let mut markup = String::new();
    let mut any = false;
    let ghost mut parts: Seq<Seq<char>> = seq![];
    if !label_mode {
        match artist_name {
            Some(name) => {
                let ghost part = "<itunes:author>"@ + escape_outside_attribute(name@) + "</itunes:author>"@;
                proof {
                    lemma_join_push(parts, "\n"@, part);
                }
                markup.append("<itunes:author>");
                markup.append(html_escape_outside_attribute(name.as_str()).as_str());
                markup.append("</itunes:author>");
                any = true;
                proof {
                    parts = parts.push(part);
                }
            },
            None => {},
        }
    }
    assert(any == (parts.len() > 0));
    match image_url {
        Some(url) => {
            let ghost part = "<itunes:image href=\""@ + url@ + "\"/>"@;
            proof {
                lemma_join_push(parts, "\n"@, part);
            }
            if any {
                markup.append("\n");
            }
            markup.append("<itunes:image href=\"");
            markup.append(url.as_str());
            markup.append("\"/>");
            any = true;
            proof {
                parts = parts.push(part);
            }
        },
        None => {},
    }
    assert(any == (parts.len() > 0));
    let ghost part = "<podcast:guid>"@ + guid@ + "</podcast:guid>"@;
    proof {
        lemma_join_push(parts, "\n"@, part);
    }
    if any {
        markup.append("\n");
    }
    markup.append("<podcast:guid>");
    markup.append(guid);
    markup.append("</podcast:guid>");
    proof {
        parts = parts.push(part);
    }
    assert(parts =~= channel_extension_parts(label_mode, opt_view(*artist_name), opt_view(*image_url), guid@));
    markup
}

} // verus!
