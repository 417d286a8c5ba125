use vstd::prelude::*;

use crate::audio_format::{spec_family, AudioFormat, AudioFormatFamily};
use crate::text::{decimal_string, opt_view, push_decimal};

verus! {

/// Whether and how the cover image is embedded into a transcoded file.
#[derive(Clone, Copy, Debug, PartialEq, Eq, Structural)]
pub enum ImageEmbed {
    /// Copy the image embedded in the source file.
    Copy,
    /// Write the release cover into the file.
    Write,
}

/// How tags are written into a transcoded file.
#[derive(Clone, Debug)]
pub enum TagMapping {
    /// Copy the tags of the source file.
    Copy,
    /// Write the given tags (and nothing else).
    Custom {
        album: Option<String>,
        album_artist: Option<String>,
        artist: Option<String>,
        image: Option<ImageEmbed>,
        title: Option<String>,
        track: Option<u32>,
    },
    /// Remove all tags.
    Remove,
}

/// One argument of the ffmpeg command line: a text, or one of the three
/// files of a transcode.
#[derive(Clone, Debug)]
pub enum FfmpegArg {
    Text(String),
    InputFile,
    OutputFile,
    CoverFile,
}

/// The abstract form of an argument.
pub enum ArgSpec {
    Text(Seq<char>),
    InputFile,
    OutputFile,
    CoverFile,
}

pub open spec fn arg_spec(arg: FfmpegArg) -> ArgSpec {
    match arg {
        FfmpegArg::Text(s) => ArgSpec::Text(s@),
        FfmpegArg::InputFile => ArgSpec::InputFile,
        FfmpegArg::OutputFile => ArgSpec::OutputFile,
        FfmpegArg::CoverFile => ArgSpec::CoverFile,
    }
}

pub open spec fn args_spec(args: Seq<FfmpegArg>) -> Seq<ArgSpec> {
    args.map_values(|a: FfmpegArg| arg_spec(a))
}

pub open spec fn t(s: Seq<char>) -> ArgSpec {
    ArgSpec::Text(s)
}

/// Whether ffmpeg keeps tags between these families without being told to
/// map them explicitly (it does among Ogg Vorbis and Opus).
pub open spec fn is_ogg_family(family: AudioFormatFamily) -> bool {
    family == AudioFormatFamily::OggVorbis || family == AudioFormatFamily::Opus
}

/// Flags that make ffmpeg copy tags: from Ogg Vorbis or Opus to any other
/// family, metadata has to be mapped explicitly.
pub open spec fn tag_copy_flags(source: AudioFormatFamily, target: AudioFormatFamily) -> Seq<ArgSpec> {
    if is_ogg_family(source) && !is_ogg_family(target) {
        seq![t("-map_metadata"@), t("0:s:a:0"@)]
    } else {
        seq![]
    }
}

/// Flags that make ffmpeg write tags: its AAC and AIFF muxers only write
/// ID3v2 tags when asked to.
pub open spec fn tag_write_flags(target: AudioFormatFamily) -> Seq<ArgSpec> {
    if target == AudioFormatFamily::Aac || target == AudioFormatFamily::Aiff {
        seq![t("-write_id3v2"@), t("1"@)]
    } else {
        seq![]
    }
}

/// The arguments for embedding (or dropping) the cover image.
pub open spec fn image_flags(image: Option<ImageEmbed>, target: AudioFormatFamily) -> Seq<ArgSpec> {
    match image {
        Some(ImageEmbed::Copy) => seq![
            t("-c:v"@),
            t("copy"@),
            t("-disposition:v:0"@),
            t("attached_pic"@),
        ],
        Some(ImageEmbed::Write) => match target {
            AudioFormatFamily::Flac => seq![
                t("-map"@),
                t("0:a"@),
                t("-map"@),
                t("1"@),
                t("-metadata:s:v"@),
                t("title=\"Album cover\""@),
                t("-metadata:s:v"@),
                t("comment=\"Cover (Front)\""@),
                t("-disposition:v"@),
                t("attached_pic"@),
            ],
            AudioFormatFamily::Mp3 => seq![
                t("-map"@),
                t("0:a"@),
                t("-map"@),
                t("1"@),
                t("-metadata:s:v"@),
                t("title=\"Album cover\""@),
                t("-metadata:s:v"@),
                t("comment=\"Cover (Front)\""@),
                t("-id3v2_version"@),
                t("3"@),
            ],
            _ => seq![t("-vn"@)],
        },
        None => seq![t("-vn"@)],
    }
}

/// `-metadata key=value` for a tag that is set, nothing otherwise.
pub open spec fn metadata_flag(key: Seq<char>, value: Option<Seq<char>>) -> Seq<ArgSpec> {
    match value {
        Some(v) => seq![t("-metadata"@), t(key + "="@ + v)],
        None => seq![],
    }
}


pub open spec fn opt_decimal(o: Option<u32>) -> Option<Seq<char>> {
    match o {
        Some(n) => Some(decimal_string(n as nat)),
        None => None,
    }
}

/// The arguments that write exactly the given tags (and cover image).
pub open spec fn custom_flags(
    album: Option<Seq<char>>,
    album_artist: Option<Seq<char>>,
    artist: Option<Seq<char>>,
    image: Option<ImageEmbed>,
    title: Option<Seq<char>>,
    track: Option<Seq<char>>,
    target: AudioFormatFamily,
) -> Seq<ArgSpec> {
    custom_head_flags(album, album_artist, artist, image) + custom_tail_flags(image, title, track, target)
}

/// The first part of `custom_flags`: the cover as a second input, the
/// removal of all source tags, and the album and artist tags.
pub open spec fn custom_head_flags(
    album: Option<Seq<char>>,
    album_artist: Option<Seq<char>>,
    artist: Option<Seq<char>>,
    image: Option<ImageEmbed>,
) -> Seq<ArgSpec> {
    (if image == Some(ImageEmbed::Write) {
        seq![t("-i"@), ArgSpec::CoverFile]
    } else {
        seq![]
    }) + seq![t("-map_metadata"@), t("-1"@)] + metadata_flag("album"@, album) + metadata_flag(
        "album_artist"@,
        album_artist,
    ) + metadata_flag("artist"@, artist)
}

/// The second part of `custom_flags`: the cover image, the title and track
/// tags, and what makes the muxer write tags.
pub open spec fn custom_tail_flags(
    image: Option<ImageEmbed>,
    title: Option<Seq<char>>,
    track: Option<Seq<char>>,
    target: AudioFormatFamily,
) -> Seq<ArgSpec> {
    image_flags(image, target) + metadata_flag("title"@, title) + metadata_flag("track"@, track)
        + tag_write_flags(target)
}

/// The arguments that map tags as `tag_mapping` says.
pub open spec fn tag_mapping_flags(
    tag_mapping: TagMapping,
    source: AudioFormatFamily,
    target: AudioFormat,
) -> Seq<ArgSpec> {
    match tag_mapping {
        TagMapping::Copy => tag_copy_flags(source, spec_family(target)) + tag_write_flags(
            spec_family(target),
        ),
        TagMapping::Custom { album, album_artist, artist, image, title, track } => custom_flags(
            opt_view(album),
            opt_view(album_artist),
            opt_view(artist),
            image,
            opt_view(title),
            opt_decimal(track),
            spec_family(target),
        ),
        TagMapping::Remove => seq![t("-map_metadata"@), t("-1"@), t("-vn"@)],
    }
}

/// The codec options of a target format.
pub open spec fn codec_flags(target: AudioFormat) -> Seq<ArgSpec> {
    match target {
        AudioFormat::Alac => seq![t("-vn"@), t("-codec:a"@), t("alac"@)],
        AudioFormat::Mp3VbrV0 => seq![t("-codec:a"@), t("libmp3lame"@), t("-qscale:a"@), t("0"@)],
        AudioFormat::Mp3VbrV5 => seq![t("-codec:a"@), t("libmp3lame"@), t("-qscale:a"@), t("5"@)],
        AudioFormat::Mp3VbrV7 => seq![t("-codec:a"@), t("libmp3lame"@), t("-qscale:a"@), t("7"@)],
        AudioFormat::Opus48Kbps => seq![t("-codec:a"@), t("libopus"@), t("-b:a"@), t("48k"@)],
        AudioFormat::Opus96Kbps => seq![t("-codec:a"@), t("libopus"@), t("-b:a"@), t("96k"@)],
        AudioFormat::Opus128Kbps => seq![t("-codec:a"@), t("libopus"@), t("-b:a"@), t("128k"@)],
        _ => seq![],
    }
}

/// The full ffmpeg argument list of a transcode.
pub open spec fn spec_transcode_args(
    source: AudioFormatFamily,
    target: AudioFormat,
    tag_mapping: TagMapping,
) -> Seq<ArgSpec> {
    seq![t("-y"@), t("-i"@), ArgSpec::InputFile] + tag_mapping_flags(tag_mapping, source, target)
        + codec_flags(target) + seq![ArgSpec::OutputFile]
}

fn push_text(args: &mut Vec<FfmpegArg>, s: &str)
    ensures
        args_spec(final(args)@) == args_spec(old(args)@).push(t(s@)),
{
    let ghost before = args@;
    args.push(FfmpegArg::Text(String::from_str(s)));
    assert(args_spec(args@) =~= args_spec(before).push(t(s@)));
}

fn push_file(args: &mut Vec<FfmpegArg>, arg: FfmpegArg)
    requires
        !(arg is Text),
    ensures
        args_spec(final(args)@) == args_spec(old(args)@).push(arg_spec(arg)),
{
    let ghost before = args@;
    args.push(arg);
    assert(args_spec(args@) =~= args_spec(before).push(arg_spec(arg)));
}

fn push_pair(args: &mut Vec<FfmpegArg>, a: &str, b: &str)
    ensures
        args_spec(final(args)@) == args_spec(old(args)@) + seq![t(a@), t(b@)],
{
    push_text(args, a);
    push_text(args, b);
    assert(args_spec(final(args)@) =~= args_spec(old(args)@) + seq![t(a@), t(b@)]);
}

fn push_tag_copy_flags(args: &mut Vec<FfmpegArg>, source: AudioFormatFamily, target: AudioFormatFamily)
    ensures
        args_spec(final(args)@) == args_spec(old(args)@) + tag_copy_flags(source, target),
{
    let source_ogg = source == AudioFormatFamily::OggVorbis || source == AudioFormatFamily::Opus;
    let target_ogg = target == AudioFormatFamily::OggVorbis || target == AudioFormatFamily::Opus;
    if source_ogg && !target_ogg {
        push_pair(args, "-map_metadata", "0:s:a:0");
    } else {
        assert(args_spec(final(args)@) =~= args_spec(old(args)@) + tag_copy_flags(source, target));
    }
}

fn push_tag_write_flags(args: &mut Vec<FfmpegArg>, target: AudioFormatFamily)
    ensures
        args_spec(final(args)@) == args_spec(old(args)@) + tag_write_flags(target),
{
    if target == AudioFormatFamily::Aac || target == AudioFormatFamily::Aiff {
        push_pair(args, "-write_id3v2", "1");
    } else {
        assert(args_spec(final(args)@) =~= args_spec(old(args)@) + tag_write_flags(target));
    }
}

fn push_metadata_flag(args: &mut Vec<FfmpegArg>, key: &str, value: &Option<String>)
    ensures
        args_spec(final(args)@) == args_spec(old(args)@) + metadata_flag(key@, opt_view(*value)),
{
    match value {
        Some(v) => {
            push_text(args, "-metadata");
            let mut s = String::from_str(key);
            s.append("=");
            s.append(v.as_str());
            let ghost before = args@;
            args.push(FfmpegArg::Text(s));
            assert(args_spec(args@) =~= args_spec(before).push(t(key@ + "="@ + v@)));
            assert(args_spec(final(args)@) =~= args_spec(old(args)@) + metadata_flag(key@, opt_view(*value)));
        },
        None => {
            assert(args_spec(final(args)@) =~= args_spec(old(args)@) + metadata_flag(key@, opt_view(*value)));
        },
    }
}

fn push_image_flags(args: &mut Vec<FfmpegArg>, image: Option<ImageEmbed>, target: AudioFormatFamily)
    ensures
        args_spec(final(args)@) == args_spec(old(args)@) + image_flags(image, target),
{
    let ghost start = args_spec(args@);
    match image {
        Some(ImageEmbed::Copy) => {
            push_pair(args, "-c:v", "copy");
            push_pair(args, "-disposition:v:0", "attached_pic");
        },
        Some(ImageEmbed::Write) => {
            if target == AudioFormatFamily::Flac || target == AudioFormatFamily::Mp3 {
                push_pair(args, "-map", "0:a");
                push_pair(args, "-map", "1");
                push_pair(args, "-metadata:s:v", "title=\"Album cover\"");
                push_pair(args, "-metadata:s:v", "comment=\"Cover (Front)\"");
                if target == AudioFormatFamily::Flac {
                    push_pair(args, "-disposition:v", "attached_pic");
                } else {
                    push_pair(args, "-id3v2_version", "3");
                }
            } else {
                push_text(args, "-vn");
            }
        },
        None => {
            push_text(args, "-vn");
        },
    }
    assert(args_spec(final(args)@) =~= start + image_flags(image, target));
}

fn push_codec_flags(args: &mut Vec<FfmpegArg>, target: AudioFormat)
    ensures
        args_spec(final(args)@) == args_spec(old(args)@) + codec_flags(target),
{
    let ghost start = args_spec(args@);
    match target {
        AudioFormat::Alac => {
            push_text(args, "-vn");
            push_pair(args, "-codec:a", "alac");
        },
        AudioFormat::Mp3VbrV0 => {
            push_pair(args, "-codec:a", "libmp3lame");
            push_pair(args, "-qscale:a", "0");
        },
        AudioFormat::Mp3VbrV5 => {
            push_pair(args, "-codec:a", "libmp3lame");
            push_pair(args, "-qscale:a", "5");
        },
        AudioFormat::Mp3VbrV7 => {
            push_pair(args, "-codec:a", "libmp3lame");
            push_pair(args, "-qscale:a", "7");
        },
        AudioFormat::Opus48Kbps => {
            push_pair(args, "-codec:a", "libopus");
            push_pair(args, "-b:a", "48k");
        },
        AudioFormat::Opus96Kbps => {
            push_pair(args, "-codec:a", "libopus");
            push_pair(args, "-b:a", "96k");
        },
        AudioFormat::Opus128Kbps => {
            push_pair(args, "-codec:a", "libopus");
            push_pair(args, "-b:a", "128k");
        },
        _ => {},
    }
    assert(args_spec(final(args)@) =~= start + codec_flags(target));
}

fn push_custom_head_flags(
    args: &mut Vec<FfmpegArg>,
    album: &Option<String>,
    album_artist: &Option<String>,
    artist: &Option<String>,
    image: Option<ImageEmbed>,
)
    ensures
        args_spec(final(args)@) == args_spec(old(args)@) + custom_head_flags(
            opt_view(*album),
            opt_view(*album_artist),
            opt_view(*artist),
            image,
        ),
{
    let ghost s0 = args_spec(args@);
    if image == Some(ImageEmbed::Write) {
        push_text(args, "-i");
        push_file(args, FfmpegArg::CoverFile);
    }
    let ghost s1 = args_spec(args@);
    assert(s1 =~= s0 + (if image == Some(ImageEmbed::Write) {
        seq![t("-i"@), ArgSpec::CoverFile]
    } else {
        seq![]
    }));
    push_pair(args, "-map_metadata", "-1");
    push_metadata_flag(args, "album", album);
    push_metadata_flag(args, "album_artist", album_artist);
    push_metadata_flag(args, "artist", artist);
    assert(args_spec(final(args)@) =~= s0 + custom_head_flags(
        opt_view(*album),
        opt_view(*album_artist),
        opt_view(*artist),
        image,
    ));
}

fn push_custom_tail_flags(
    args: &mut Vec<FfmpegArg>,
    image: Option<ImageEmbed>,
    title: &Option<String>,
    track: Option<u32>,
    target: AudioFormatFamily,
)
    ensures
        args_spec(final(args)@) == args_spec(old(args)@) + custom_tail_flags(
            image,
            opt_view(*title),
            opt_decimal(track),
            target,
        ),
{
    let ghost s0 = args_spec(args@);
    push_image_flags(args, image, target);
    push_metadata_flag(args, "title", title);
    let track_text: Option<String> = match track {
        Some(n) => {
            let mut s = String::new();
            push_decimal(&mut s, n as u64);
            Some(s)
        },
        None => None,
    };
    assert(opt_view(track_text) == opt_decimal(track));
    push_metadata_flag(args, "track", &track_text);
    push_tag_write_flags(args, target);
    assert(args_spec(final(args)@) =~= s0 + custom_tail_flags(
        image,
        opt_view(*title),
        opt_decimal(track),
        target,
    ));
}

fn push_custom_flags(
    args: &mut Vec<FfmpegArg>,
    album: &Option<String>,
    album_artist: &Option<String>,
    artist: &Option<String>,
    image: Option<ImageEmbed>,
    title: &Option<String>,
    track: Option<u32>,
    target: AudioFormatFamily,
)
    ensures
        args_spec(final(args)@) == args_spec(old(args)@) + custom_flags(
            opt_view(*album),
            opt_view(*album_artist),
            opt_view(*artist),
            image,
            opt_view(*title),
            opt_decimal(track),
            target,
        ),
{
    let ghost s0 = args_spec(args@);
    push_custom_head_flags(args, album, album_artist, artist, image);
    push_custom_tail_flags(args, image, title, track, target);
    assert(args_spec(final(args)@) =~= s0 + custom_flags(
        opt_view(*album),
        opt_view(*album_artist),
        opt_view(*artist),
        image,
        opt_view(*title),
        opt_decimal(track),
        target,
    ));
}

#[verifier::spinoff_prover]
fn push_tag_mapping_flags(
    args: &mut Vec<FfmpegArg>,
    tag_mapping: &TagMapping,
    source: AudioFormatFamily,
    target: AudioFormat,
)
    ensures
        args_spec(final(args)@) == args_spec(old(args)@) + tag_mapping_flags(*tag_mapping, source, target),
{
    let target_family = target.family();
    let ghost start = args_spec(args@);
    match tag_mapping {
        TagMapping::Copy => {
            push_tag_copy_flags(args, source, target_family);
            push_tag_write_flags(args, target_family);
            assert(args_spec(args@) =~= start + tag_mapping_flags(*tag_mapping, source, target));
        },
        TagMapping::Custom { album, album_artist, artist, image, title, track } => {
            push_custom_flags(args, album, album_artist, artist, *image, title, *track, target_family);
        },
        TagMapping::Remove => {
            push_pair(args, "-map_metadata", "-1");
            push_text(args, "-vn");
            assert(args_spec(args@) =~= start + tag_mapping_flags(*tag_mapping, source, target));
        },
    }
}

/// The ffmpeg arguments that transcode the input file (of format family
/// `source_format_family`) into the output file in `target_format`, with
/// tags handled as `tag_mapping` says. The process itself is run by the
/// caller, with the files put in place of the file arguments.
pub fn transcode_args(
    source_format_family: AudioFormatFamily,
    target_format: AudioFormat,
    tag_mapping: &TagMapping,
) -> (args: Vec<FfmpegArg>)
    ensures
        args_spec(args@) == spec_transcode_args(source_format_family, target_format, *tag_mapping),
{
    let mut args: Vec<FfmpegArg> = Vec::new();
    push_text(&mut args, "-y");
    push_text(&mut args, "-i");
    push_file(&mut args, FfmpegArg::InputFile);
    let ghost head = args_spec(args@);
    assert(head =~= seq![t("-y"@), t("-i"@), ArgSpec::InputFile]);
    push_tag_mapping_flags(&mut args, tag_mapping, source_format_family, target_format);
    push_codec_flags(&mut args, target_format);
    push_file(&mut args, FfmpegArg::OutputFile);
    assert(args_spec(args@) =~= spec_transcode_args(source_format_family, target_format, *tag_mapping));
    args
}


/// Whether no argument of `args` is `-vn`, the flag that drops all video
/// streams (and with them an embedded cover).
pub open spec fn no_video_dropped(args: Seq<ArgSpec>) -> bool {
    forall|i: int| 0 <= i < args.len() ==> args[i] != t("-vn"@)
}

/// Whether `args` maps the second input, the cover, as a stream of the
/// output: "-map" followed by "1".
pub open spec fn maps_cover_input(args: Seq<ArgSpec>) -> bool {
    exists|i: int| 0 <= i && i + 1 < args.len() && #[trigger] args[i] == t("-map"@) && args[i + 1] == t("1"@)
}

proof fn lemma_literals()
    ensures
        "-y"@ =~= seq!['-', 'y'],
        "-i"@ =~= seq!['-', 'i'],
        "-map_metadata"@ =~= seq!['-', 'm', 'a', 'p', '_', 'm', 'e', 't', 'a', 'd', 'a', 't', 'a'],
        "-1"@ =~= seq!['-', '1'],
        "-metadata"@ =~= seq!['-', 'm', 'e', 't', 'a', 'd', 'a', 't', 'a'],
        "="@ =~= seq!['='],
        "-map"@ =~= seq!['-', 'm', 'a', 'p'],
        "0:a"@ =~= seq!['0', ':', 'a'],
        "1"@ =~= seq!['1'],
        "-metadata:s:v"@ =~= seq!['-', 'm', 'e', 't', 'a', 'd', 'a', 't', 'a', ':', 's', ':', 'v'],
        "title=\"Album cover\""@ =~= seq!['t', 'i', 't', 'l', 'e', '=', '"', 'A', 'l', 'b', 'u', 'm', ' ', 'c', 'o', 'v', 'e', 'r', '"'],
        "comment=\"Cover (Front)\""@ =~= seq!['c', 'o', 'm', 'm', 'e', 'n', 't', '=', '"', 'C', 'o', 'v', 'e', 'r', ' ', '(', 'F', 'r', 'o', 'n', 't', ')', '"'],
        "-disposition:v"@ =~= seq!['-', 'd', 'i', 's', 'p', 'o', 's', 'i', 't', 'i', 'o', 'n', ':', 'v'],
        "attached_pic"@ =~= seq!['a', 't', 't', 'a', 'c', 'h', 'e', 'd', '_', 'p', 'i', 'c'],
        "-id3v2_version"@ =~= seq!['-', 'i', 'd', '3', 'v', '2', '_', 'v', 'e', 'r', 's', 'i', 'o', 'n'],
        "3"@ =~= seq!['3'],
        "-codec:a"@ =~= seq!['-', 'c', 'o', 'd', 'e', 'c', ':', 'a'],
        "libmp3lame"@ =~= seq!['l', 'i', 'b', 'm', 'p', '3', 'l', 'a', 'm', 'e'],
        "-qscale:a"@ =~= seq!['-', 'q', 's', 'c', 'a', 'l', 'e', ':', 'a'],
        "0"@ =~= seq!['0'],
        "5"@ =~= seq!['5'],
        "7"@ =~= seq!['7'],
        "-vn"@ =~= seq!['-', 'v', 'n'],
        "album"@ =~= seq!['a', 'l', 'b', 'u', 'm'],
        "album_artist"@ =~= seq!['a', 'l', 'b', 'u', 'm', '_', 'a', 'r', 't', 'i', 's', 't'],
        "artist"@ =~= seq!['a', 'r', 't', 'i', 's', 't'],
        "title"@ =~= seq!['t', 'i', 't', 'l', 'e'],
        "track"@ =~= seq!['t', 'r', 'a', 'c', 'k'],
{
    reveal_strlit("-y");
    assert("-y"@ =~= seq!['-', 'y']);
    reveal_strlit("-i");
    assert("-i"@ =~= seq!['-', 'i']);
    reveal_strlit("-map_metadata");
    assert("-map_metadata"@ =~= seq!['-', 'm', 'a', 'p', '_', 'm', 'e', 't', 'a', 'd', 'a', 't', 'a']);
    reveal_strlit("-1");
    assert("-1"@ =~= seq!['-', '1']);
    reveal_strlit("-metadata");
    assert("-metadata"@ =~= seq!['-', 'm', 'e', 't', 'a', 'd', 'a', 't', 'a']);
    reveal_strlit("=");
    assert("="@ =~= seq!['=']);
    reveal_strlit("-map");
    assert("-map"@ =~= seq!['-', 'm', 'a', 'p']);
    reveal_strlit("0:a");
    assert("0:a"@ =~= seq!['0', ':', 'a']);
    reveal_strlit("1");
    assert("1"@ =~= seq!['1']);
    reveal_strlit("-metadata:s:v");
    assert("-metadata:s:v"@ =~= seq!['-', 'm', 'e', 't', 'a', 'd', 'a', 't', 'a', ':', 's', ':', 'v']);
    reveal_strlit("title=\"Album cover\"");
    assert("title=\"Album cover\""@ =~= seq!['t', 'i', 't', 'l', 'e', '=', '"', 'A', 'l', 'b', 'u', 'm', ' ', 'c', 'o', 'v', 'e', 'r', '"']);
    reveal_strlit("comment=\"Cover (Front)\"");
    assert("comment=\"Cover (Front)\""@ =~= seq!['c', 'o', 'm', 'm', 'e', 'n', 't', '=', '"', 'C', 'o', 'v', 'e', 'r', ' ', '(', 'F', 'r', 'o', 'n', 't', ')', '"']);
    reveal_strlit("-disposition:v");
    assert("-disposition:v"@ =~= seq!['-', 'd', 'i', 's', 'p', 'o', 's', 'i', 't', 'i', 'o', 'n', ':', 'v']);
    reveal_strlit("attached_pic");
    assert("attached_pic"@ =~= seq!['a', 't', 't', 'a', 'c', 'h', 'e', 'd', '_', 'p', 'i', 'c']);
    reveal_strlit("-id3v2_version");
    assert("-id3v2_version"@ =~= seq!['-', 'i', 'd', '3', 'v', '2', '_', 'v', 'e', 'r', 's', 'i', 'o', 'n']);
    reveal_strlit("3");
    assert("3"@ =~= seq!['3']);
    reveal_strlit("-codec:a");
    assert("-codec:a"@ =~= seq!['-', 'c', 'o', 'd', 'e', 'c', ':', 'a']);
    reveal_strlit("libmp3lame");
    assert("libmp3lame"@ =~= seq!['l', 'i', 'b', 'm', 'p', '3', 'l', 'a', 'm', 'e']);
    reveal_strlit("-qscale:a");
    assert("-qscale:a"@ =~= seq!['-', 'q', 's', 'c', 'a', 'l', 'e', ':', 'a']);
    reveal_strlit("0");
    assert("0"@ =~= seq!['0']);
    reveal_strlit("5");
    assert("5"@ =~= seq!['5']);
    reveal_strlit("7");
    assert("7"@ =~= seq!['7']);
    reveal_strlit("-vn");
    assert("-vn"@ =~= seq!['-', 'v', 'n']);
    reveal_strlit("album");
    assert("album"@ =~= seq!['a', 'l', 'b', 'u', 'm']);
    reveal_strlit("album_artist");
    assert("album_artist"@ =~= seq!['a', 'l', 'b', 'u', 'm', '_', 'a', 'r', 't', 'i', 's', 't']);
    reveal_strlit("artist");
    assert("artist"@ =~= seq!['a', 'r', 't', 'i', 's', 't']);
    reveal_strlit("title");
    assert("title"@ =~= seq!['t', 'i', 't', 'l', 'e']);
    reveal_strlit("track");
    assert("track"@ =~= seq!['t', 'r', 'a', 'c', 'k']);
}

proof fn lemma_no_video_dropped_concat(a: Seq<ArgSpec>, b: Seq<ArgSpec>)
    requires
        no_video_dropped(a),
        no_video_dropped(b),
    ensures
        no_video_dropped(a + b),
{
    assert forall|i: int| 0 <= i < (a + b).len() implies (a + b)[i] != t("-vn"@) by {
        if i < a.len() {
            assert((a + b)[i] == a[i]);
        } else {
            assert((a + b)[i] == b[i - a.len()]);
        }
    }
}

proof fn lemma_metadata_flag_keeps_video(key: Seq<char>, value: Option<Seq<char>>)
    requires
        key.len() > 0,
        key[0] != '-',
    ensures
        no_video_dropped(metadata_flag(key, value)),
{
    lemma_literals();
    match value {
        Some(v) => {
            let arg = key + "="@ + v;
            assert(arg[0] == key[0]);
            assert(arg != "-vn"@);
        },
        None => {},
    }
}

/// Where the cover is to be written into an MP3 or FLAC file, the
/// arguments map the cover input as a stream and never drop the video
/// streams: the cover ends up in the file.
pub proof fn lemma_written_cover_is_embedded(source: AudioFormatFamily, target: AudioFormat, tag_mapping: TagMapping)
    requires
        tag_mapping matches TagMapping::Custom { image, .. } && image == Some(ImageEmbed::Write),
        spec_family(target) == AudioFormatFamily::Mp3 || spec_family(target) == AudioFormatFamily::Flac,
    ensures
        maps_cover_input(spec_transcode_args(source, target, tag_mapping)),
        no_video_dropped(spec_transcode_args(source, target, tag_mapping)),
{
    lemma_literals();
    match tag_mapping {
        TagMapping::Custom { album, album_artist, artist, image, title, track } => {
        let family = spec_family(target);
        let start = seq![t("-y"@), t("-i"@), ArgSpec::InputFile];
        let head = custom_head_flags(opt_view(album), opt_view(album_artist), opt_view(artist), image);
        let pic = image_flags(image, family);
        let args = spec_transcode_args(source, target, tag_mapping);
        assert(args =~= start + head + (pic + metadata_flag("title"@, opt_view(title)) + metadata_flag("track"@, opt_decimal(track))
            + tag_write_flags(family)) + codec_flags(target) + seq![ArgSpec::OutputFile]);
        let k: int = (start.len() + head.len() + 2) as int;
        assert(args[k] == pic[2]);
        assert(args[k + 1] == pic[3]);
        assert(maps_cover_input(args));
        assert(no_video_dropped(start));
        lemma_metadata_flag_keeps_video("album"@, opt_view(album));
        lemma_metadata_flag_keeps_video("album_artist"@, opt_view(album_artist));
        lemma_metadata_flag_keeps_video("artist"@, opt_view(artist));
        lemma_metadata_flag_keeps_video("title"@, opt_view(title));
        lemma_metadata_flag_keeps_video("track"@, opt_decimal(track));
        let cover_in = seq![t("-i"@), ArgSpec::CoverFile];
        let wipe = seq![t("-map_metadata"@), t("-1"@)];
        assert(no_video_dropped(cover_in));
        assert(no_video_dropped(wipe));
        assert(head =~= cover_in + wipe + metadata_flag("album"@, opt_view(album)) + metadata_flag("album_artist"@, opt_view(album_artist))
            + metadata_flag("artist"@, opt_view(artist)));
        lemma_no_video_dropped_concat(cover_in, wipe);
        lemma_no_video_dropped_concat(cover_in + wipe, metadata_flag("album"@, opt_view(album)));
        lemma_no_video_dropped_concat(cover_in + wipe + metadata_flag("album"@, opt_view(album)), metadata_flag("album_artist"@, opt_view(album_artist)));
        lemma_no_video_dropped_concat(cover_in + wipe + metadata_flag("album"@, opt_view(album)) + metadata_flag("album_artist"@, opt_view(album_artist)), metadata_flag("artist"@, opt_view(artist)));
        assert(no_video_dropped(pic));
        assert(tag_write_flags(family) =~= seq![]);
        assert(no_video_dropped(tag_write_flags(family)));
        assert(no_video_dropped(codec_flags(target)));
        assert(no_video_dropped(seq![ArgSpec::OutputFile]));
        let tail = pic + metadata_flag("title"@, opt_view(title)) + metadata_flag("track"@, opt_decimal(track)) + tag_write_flags(family);
        lemma_no_video_dropped_concat(pic, metadata_flag("title"@, opt_view(title)));
        lemma_no_video_dropped_concat(pic + metadata_flag("title"@, opt_view(title)), metadata_flag("track"@, opt_decimal(track)));
        lemma_no_video_dropped_concat(pic + metadata_flag("title"@, opt_view(title)) + metadata_flag("track"@, opt_decimal(track)), tag_write_flags(family));
        lemma_no_video_dropped_concat(start, head);
        lemma_no_video_dropped_concat(start + head, tail);
        lemma_no_video_dropped_concat(start + head + tail, codec_flags(target));
        lemma_no_video_dropped_concat(start + head + tail + codec_flags(target), seq![ArgSpec::OutputFile]);
        },
        _ => {},
    }
}

/// Where the cover is to be written but the target family cannot hold one
/// (AAC, AIFF, ALAC, Ogg Vorbis, Opus, WAV), the video streams are dropped.
pub proof fn lemma_cover_dropped_where_unsupported(source: AudioFormatFamily, target: AudioFormat, tag_mapping: TagMapping)
    requires
        tag_mapping matches TagMapping::Custom { image, .. } && image == Some(ImageEmbed::Write),
        spec_family(target) != AudioFormatFamily::Mp3,
        spec_family(target) != AudioFormatFamily::Flac,
    ensures
        !no_video_dropped(spec_transcode_args(source, target, tag_mapping)),
{
    match tag_mapping {
        TagMapping::Custom { album, album_artist, artist, image, title, track } => {
        let family = spec_family(target);
        let start = seq![t("-y"@), t("-i"@), ArgSpec::InputFile];
        let head = custom_head_flags(opt_view(album), opt_view(album_artist), opt_view(artist), image);
        let pic = image_flags(image, family);
        let args = spec_transcode_args(source, target, tag_mapping);
        assert(args =~= start + head + (pic + metadata_flag("title"@, opt_view(title)) + metadata_flag("track"@, opt_decimal(track))
            + tag_write_flags(family)) + codec_flags(target) + seq![ArgSpec::OutputFile]);
        let k: int = (start.len() + head.len()) as int;
        assert(args[k] == t("-vn"@));
        },
        _ => {},
    }
}

/// Every transcode overwrites the output, reads the input first, and
/// writes the output last.
pub proof fn lemma_transcode_frame(source: AudioFormatFamily, target: AudioFormat, tag_mapping: TagMapping)
    ensures
        ({
            let args = spec_transcode_args(source, target, tag_mapping);
            &&& args.len() >= 4
            &&& args[0] == t("-y"@)
            &&& args[1] == t("-i"@)
            &&& args[2] == ArgSpec::InputFile
            &&& args[args.len() - 1] == ArgSpec::OutputFile
        }),
{
}

/// Removing the tags drops all metadata and all video streams, right after
/// the input; the codec options follow.
pub proof fn lemma_removed_tags(source: AudioFormatFamily, target: AudioFormat)
    ensures
        spec_transcode_args(source, target, TagMapping::Remove) == seq![
            t("-y"@),
            t("-i"@),
            ArgSpec::InputFile,
            t("-map_metadata"@),
            t("-1"@),
            t("-vn"@),
        ] + codec_flags(target) + seq![ArgSpec::OutputFile],
{
    assert(spec_transcode_args(source, target, TagMapping::Remove) =~= seq![
        t("-y"@),
        t("-i"@),
        ArgSpec::InputFile,
        t("-map_metadata"@),
        t("-1"@),
        t("-vn"@),
    ] + codec_flags(target) + seq![ArgSpec::OutputFile]);
}

/// The MP3 formats are encoded with LAME at the VBR quality their name
/// gives (V0, V5, V7), the Opus formats with libopus at their bitrate.
pub proof fn lemma_lossy_codecs(target: AudioFormat)
    ensures
        target == AudioFormat::Mp3VbrV0 ==> codec_flags(target) == seq![t("-codec:a"@), t("libmp3lame"@), t("-qscale:a"@), t("0"@)],
        target == AudioFormat::Mp3VbrV5 ==> codec_flags(target) == seq![t("-codec:a"@), t("libmp3lame"@), t("-qscale:a"@), t("5"@)],
        target == AudioFormat::Mp3VbrV7 ==> codec_flags(target) == seq![t("-codec:a"@), t("libmp3lame"@), t("-qscale:a"@), t("7"@)],
        target == AudioFormat::Opus48Kbps ==> codec_flags(target) == seq![t("-codec:a"@), t("libopus"@), t("-b:a"@), t("48k"@)],
        target == AudioFormat::Opus96Kbps ==> codec_flags(target) == seq![t("-codec:a"@), t("libopus"@), t("-b:a"@), t("96k"@)],
        target == AudioFormat::Opus128Kbps ==> codec_flags(target) == seq![t("-codec:a"@), t("libopus"@), t("-b:a"@), t("128k"@)],
{
}

/// A cover that is copied from the source keeps the video stream as it is
/// and marks it as the attached picture; where no cover is asked for in
/// custom tags, the video streams are dropped.
pub proof fn lemma_cover_copy_and_absence(source: AudioFormatFamily, target: AudioFormat, tag_mapping: TagMapping)
    requires
        tag_mapping is Custom,
    ensures
        ({
            let args = spec_transcode_args(source, target, tag_mapping);
            &&& tag_mapping->Custom_image == Some(ImageEmbed::Copy) ==> exists|i: int|
                0 <= i && i + 3 < args.len() && #[trigger] args[i] == t("-c:v"@) && args[i + 1] == t("copy"@)
                    && args[i + 2] == t("-disposition:v:0"@) && args[i + 3] == t("attached_pic"@)
            &&& tag_mapping->Custom_image is None ==> !no_video_dropped(args)
        }),
{
    match tag_mapping {
        TagMapping::Custom { album, album_artist, artist, image, title, track } => {
            let family = spec_family(target);
            let start = seq![t("-y"@), t("-i"@), ArgSpec::InputFile];
            let head = custom_head_flags(opt_view(album), opt_view(album_artist), opt_view(artist), image);
            let pic = image_flags(image, family);
            let args = spec_transcode_args(source, target, tag_mapping);
            assert(args =~= start + head + (pic + metadata_flag("title"@, opt_view(title)) + metadata_flag("track"@, opt_decimal(track))
                + tag_write_flags(family)) + codec_flags(target) + seq![ArgSpec::OutputFile]);
            let k: int = (start.len() + head.len()) as int;
            assert(args[k] == pic[0]);
            if image == Some(ImageEmbed::Copy) {
                assert(args[k + 1] == pic[1]);
                assert(args[k + 2] == pic[2]);
                assert(args[k + 3] == pic[3]);
            }
        },
        _ => {},
    }
}

/// Tags of Ogg Vorbis and Opus sources are mapped explicitly into files of
/// other families, right after the input; between those two families, and
/// from any other family, they are kept without being mapped.
pub proof fn lemma_copied_tags(source: AudioFormatFamily, target: AudioFormat)
    ensures
        is_ogg_family(source) && !is_ogg_family(spec_family(target)) ==> spec_transcode_args(source, target, TagMapping::Copy)[3]
            == t("-map_metadata"@) && spec_transcode_args(source, target, TagMapping::Copy)[4] == t("0:s:a:0"@),
        !(is_ogg_family(source) && !is_ogg_family(spec_family(target))) ==> tag_copy_flags(source, spec_family(target))
            == Seq::<ArgSpec>::empty(),
{
}
} // verus!
