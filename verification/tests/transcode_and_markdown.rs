use faircamp::audio_format::{AudioFormat, AudioFormatFamily};
use faircamp::ffmpeg::{transcode_args, FfmpegArg, ImageEmbed, TagMapping};
use faircamp::markdown::{
    link_start_html, render_stripped, to_html, to_html_and_stripped, to_stripped, MdEvent, MdTag, MdTagEnd, DIVIDER_HTML,
};
use faircamp::render::unlisted_badge;

fn words(args: &[FfmpegArg]) -> Vec<String> {
    args.iter()
        .map(|arg| match arg {
            FfmpegArg::Text(text) => text.clone(),
            FfmpegArg::InputFile => String::from("<input>"),
            FfmpegArg::OutputFile => String::from("<output>"),
            FfmpegArg::CoverFile => String::from("<cover>"),
        })
        .collect()
}

#[test]
fn transcode_copying_tags_from_flac_to_mp3() {
    let args = transcode_args(AudioFormatFamily::Flac, AudioFormat::Mp3VbrV0, &TagMapping::Copy);
    assert_eq!(
        words(&args),
        vec!["-y", "-i", "<input>", "-codec:a", "libmp3lame", "-qscale:a", "0", "<output>"]
    );
}

#[test]
fn transcode_copying_tags_from_opus_maps_metadata() {
    let args = transcode_args(AudioFormatFamily::Opus, AudioFormat::Aac, &TagMapping::Copy);
    assert_eq!(
        words(&args),
        vec!["-y", "-i", "<input>", "-map_metadata", "0:s:a:0", "-write_id3v2", "1", "<output>"]
    );
}

#[test]
fn transcode_between_ogg_families_keeps_tags_implicitly() {
    let args = transcode_args(AudioFormatFamily::OggVorbis, AudioFormat::Opus96Kbps, &TagMapping::Copy);
    assert_eq!(
        words(&args),
        vec!["-y", "-i", "<input>", "-codec:a", "libopus", "-b:a", "96k", "<output>"]
    );
}

#[test]
fn transcode_removing_tags_to_alac() {
    let args = transcode_args(AudioFormatFamily::Wav, AudioFormat::Alac, &TagMapping::Remove);
    assert_eq!(
        words(&args),
        vec!["-y", "-i", "<input>", "-map_metadata", "-1", "-vn", "-vn", "-codec:a", "alac", "<output>"]
    );
}

#[test]
fn transcode_writing_custom_tags_and_cover_into_flac() {
    let mapping = TagMapping::Custom {
        album: Some(String::from("Album")),
        album_artist: None,
        artist: Some(String::from("Artist")),
        image: Some(ImageEmbed::Write),
        title: Some(String::from("Song")),
        track: Some(7),
    };
    let args = transcode_args(AudioFormatFamily::Wav, AudioFormat::Flac, &mapping);
    assert_eq!(
        words(&args),
        vec![
            "-y", "-i", "<input>",
            "-i", "<cover>",
            "-map_metadata", "-1",
            "-metadata", "album=Album",
            "-metadata", "artist=Artist",
            "-map", "0:a", "-map", "1",
            "-metadata:s:v", "title=\"Album cover\"",
            "-metadata:s:v", "comment=\"Cover (Front)\"",
            "-disposition:v", "attached_pic",
            "-metadata", "title=Song",
            "-metadata", "track=7",
            "<output>",
        ]
    );
}

#[test]
fn transcode_writing_custom_tags_into_aiff_drops_cover() {
    let mapping = TagMapping::Custom {
        album: None,
        album_artist: Some(String::from("Band")),
        artist: None,
        image: Some(ImageEmbed::Write),
        title: None,
        track: None,
    };
    let args = transcode_args(AudioFormatFamily::Flac, AudioFormat::Aiff, &mapping);
    assert_eq!(
        words(&args),
        vec![
            "-y", "-i", "<input>",
            "-i", "<cover>",
            "-map_metadata", "-1",
            "-metadata", "album_artist=Band",
            "-vn",
            "-write_id3v2", "1",
            "<output>",
        ]
    );
}

#[test]
fn transcode_copying_embedded_cover_into_mp3() {
    let mapping = TagMapping::Custom {
        album: None,
        album_artist: None,
        artist: None,
        image: Some(ImageEmbed::Copy),
        title: None,
        track: Some(12),
    };
    let args = transcode_args(AudioFormatFamily::Mp3, AudioFormat::Mp3VbrV7, &mapping);
    assert_eq!(
        words(&args),
        vec![
            "-y", "-i", "<input>",
            "-map_metadata", "-1",
            "-c:v", "copy", "-disposition:v:0", "attached_pic",
            "-metadata", "track=12",
            "-codec:a", "libmp3lame", "-qscale:a", "7",
            "<output>",
        ]
    );
}

fn text(s: &str) -> MdEvent {
    MdEvent::Text(String::from(s))
}

fn paragraph(s: &str) -> Vec<MdEvent> {
    vec![MdEvent::Start(MdTag::Block), text(s), MdEvent::End(MdTagEnd::Plain)]
}

#[test]
fn stripped_paragraphs_are_separated_by_a_blank_line() {
    let mut events = paragraph("First");
    events.extend(paragraph("Second"));
    assert_eq!(render_stripped(&events), "First\n\nSecond");
}

#[test]
fn stripped_empty_input_is_empty() {
    assert_eq!(render_stripped(&Vec::new()), "");
}

#[test]
fn stripped_ordered_list_counts_from_its_first_number() {
    let mut events = paragraph("Steps:");
    events.push(MdEvent::Start(MdTag::List { first_number: Some(3) }));
    for item in ["one", "two"] {
        events.push(MdEvent::Start(MdTag::Item));
        events.push(text(item));
        events.push(MdEvent::End(MdTagEnd::Plain));
    }
    events.push(MdEvent::End(MdTagEnd::List));
    assert_eq!(render_stripped(&events), "Steps:\n3. one\n4. two");
}

#[test]
fn stripped_unordered_list_uses_dashes() {
    let mut events = vec![MdEvent::Start(MdTag::List { first_number: None })];
    for item in ["a", "b"] {
        events.push(MdEvent::Start(MdTag::Item));
        events.push(text(item));
        events.push(MdEvent::End(MdTagEnd::Plain));
    }
    events.push(MdEvent::End(MdTagEnd::List));
    events.extend(paragraph("after"));
    assert_eq!(render_stripped(&events), "- a\n- b\n\nafter");
}

#[test]
fn stripped_link_is_followed_by_its_target() {
    let events = vec![
        MdEvent::Start(MdTag::Block),
        text("See "),
        MdEvent::Start(MdTag::Link { dest_url: String::from("https://example.com"), title: String::new(), inline_or_autolink: true }),
        text("here"),
        MdEvent::End(MdTagEnd::LinkOrHtmlBlock),
        MdEvent::End(MdTagEnd::Plain),
    ];
    assert_eq!(render_stripped(&events), "See here (https://example.com)");
}

#[test]
fn stripped_image_keeps_caption_and_target_only() {
    let events = vec![
        MdEvent::Start(MdTag::Block),
        MdEvent::Start(MdTag::Image { dest_url: String::from("cover.png") }),
        text("The "),
        MdEvent::Start(MdTag::Inline),
        text("cover"),
        MdEvent::End(MdTagEnd::Plain),
        MdEvent::End(MdTagEnd::Image),
        MdEvent::End(MdTagEnd::Plain),
    ];
    assert_eq!(render_stripped(&events), "The cover (cover.png)");
}

#[test]
fn stripped_rule_and_breaks() {
    let mut events = paragraph("Above");
    events.push(MdEvent::Rule);
    events.push(MdEvent::Start(MdTag::Block));
    events.push(text("line one"));
    events.push(MdEvent::SoftBreak);
    events.push(text("line two"));
    events.push(MdEvent::HardBreak);
    events.push(text("line three"));
    events.push(MdEvent::End(MdTagEnd::Plain));
    assert_eq!(
        render_stripped(&events),
        "Above\n\n----------------\n\nline one\nline two\nline three"
    );
}

#[test]
fn stripped_html_blocks_keep_only_plain_content() {
    let events = vec![
        MdEvent::Html(String::from("<div>")),
        MdEvent::Html(String::from("  plain words\n")),
        MdEvent::InlineHtml,
        MdEvent::Unsupported,
    ];
    assert_eq!(render_stripped(&events), "plain words\n");
}

#[test]
fn stripped_text_ending_in_newline_starts_the_next_block_with_one_newline() {
    let events = vec![
        MdEvent::Start(MdTag::Block),
        text("code\n"),
        MdEvent::End(MdTagEnd::Plain),
        MdEvent::Start(MdTag::Block),
        text("next"),
        MdEvent::End(MdTagEnd::Plain),
    ];
    assert_eq!(render_stripped(&events), "code\n\nnext");
}

#[test]
fn external_inline_link_opens_in_new_tab() {
    let site = Some(String::from("https://music.example.org"));
    assert_eq!(
        link_start_html(&site, true, "https://elsewhere.net/page", "Elsewhere"),
        Some(String::from(r#"<a href="https://elsewhere.net/page" target="_blank">Elsewhere"#))
    );
}

#[test]
fn internal_anchor_and_reference_links_stay_as_they_are() {
    let site = Some(String::from("https://music.example.org"));
    assert_eq!(link_start_html(&site, true, "https://music.example.org/album/", ""), None);
    assert_eq!(link_start_html(&site, true, "#t=3m", ""), None);
    assert_eq!(link_start_html(&site, false, "https://elsewhere.net", ""), None);
    assert_eq!(link_start_html(&None, true, "https://elsewhere.net", ""), None);
}

#[test]
fn divider_stands_in_for_rules() {
    assert!(DIVIDER_HTML.starts_with("<div class=\"divider\">\n"));
    assert_eq!(DIVIDER_HTML.matches("<span></span>").count(), 3);
    assert!(DIVIDER_HTML.ends_with("</div>\n"));
}

#[test]
fn html_and_stripped_bundle_both_renderings() {
    let both = to_html_and_stripped(&None, "Hello");
    assert_eq!(both.html, "<p>Hello</p>\n");
    assert_eq!(both.stripped, "Hello");
    let with_site = to_html_and_stripped(&Some(String::from("https://me.org")), "Hello");
    assert_eq!(with_site.stripped, both.stripped);
}

#[test]
fn markdown_rules_become_dividers() {
    let html = to_html(&None, "a\n\n---\n\nb");
    assert!(html.starts_with("<p>a</p>\n"));
    assert!(html.contains(DIVIDER_HTML));
    assert!(html.ends_with("<p>b</p>\n"));
    assert_eq!(to_stripped("a\n\n---\n\nb"), "a\n\n----------------\n\nb");
}

#[test]
fn external_links_open_in_a_new_tab_where_the_site_has_a_url() {
    let text = "[x](https://a.org) and [y](https://me.org/p/)";
    assert_eq!(
        to_html(&Some(String::from("https://me.org")), text),
        "<p><a href=\"https://a.org\" target=\"_blank\">x</a> and <a href=\"https://me.org/p/\">y</a></p>\n"
    );
    assert_eq!(
        to_html(&None, text),
        "<p><a href=\"https://a.org\">x</a> and <a href=\"https://me.org/p/\">y</a></p>\n"
    );
    assert_eq!(to_stripped("[x](https://a.org)"), "x (https://a.org)");
    assert_eq!(to_stripped("- one\n- two"), "- one\n- two");
}

#[test]
fn unlisted_badge_wraps_the_translation() {
    assert_eq!(unlisted_badge("Unlisted"), r#"<span class="unlisted">Unlisted</span>"#);
}
