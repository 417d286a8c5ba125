use vstd::prelude::*;

use pulldown_cmark::{CowStr, Event, LinkType, Parser, Tag, TagEnd};

use crate::text::{decimal_string, opt_view, push_decimal, starts_with, starts_with_str, trim_start, trim_start_str};

verus! {

/// Markdown rendered both to html and to plain text stripped of all markup.
#[derive(Clone, Debug)]
pub struct HtmlAndStripped {
    pub html: String,
    pub stripped: String,
}

/// The opening tags of markdown elements, as far as plain text rendering
/// tells them apart.
#[derive(Clone, Debug)]
pub enum MdTag {
    /// Block quotes, code blocks, definition lists and their parts,
    /// headings and paragraphs: separated from what precedes by a blank line.
    Block,
    /// Emphasis, strong, sub- and superscript, html blocks, and elements
    /// that are not enabled (footnotes, metadata, strikethrough, tables).
    Inline,
    Image { dest_url: String },
    Item,
    /// A link: its target, its title, and whether it is an inline link or
    /// an autolink (rather than a reference, a shortcut, an email address
    /// or a wiki link).
    Link { dest_url: String, title: String, inline_or_autolink: bool },
    /// A list, ordered (with the number of its first item) or not.
    List { first_number: Option<u64> },
}

/// The closing tags of markdown elements, as far as plain text rendering
/// tells them apart.
#[derive(Clone, Copy, Debug, PartialEq, Eq, Structural)]
pub enum MdTagEnd {
    /// Closing tags after which nothing is written.
    Plain,
    /// The end of a link or an html block: the link target is written.
    LinkOrHtmlBlock,
    List,
    Image,
}

/// The events of a markdown parse, as far as plain text rendering tells
/// them apart.
#[derive(Clone, Debug)]
pub enum MdEvent {
    /// Text or inline code.
    Text(String),
    Start(MdTag),
    End(MdTagEnd),
    HardBreak,
    SoftBreak,
    /// Block html (which sometimes holds plain content).
    Html(String),
    InlineHtml,
    Rule,
    /// Math, footnote references and task list markers (not enabled).
    Unsupported,
}

/// Where the plain text output currently stands.
#[derive(Clone, Copy, Debug, PartialEq, Eq, Structural)]
pub enum Cursor {
    BeginOfFile,
    BeginOfLine,
    EndOfGap,
    EndOfLine,
}

/// The state of plain text rendering.
pub struct StrippedState {
    pub cursor: Cursor,
    pub ordered_list_item_number: Option<u64>,
    pub link_end_dest_url: Option<Seq<char>>,
    pub output: Seq<char>,
    /// While the caption of an image is read: its target.
    pub image_dest_url: Option<Seq<char>>,
}

pub open spec fn initial_state() -> StrippedState {
    StrippedState {
        cursor: Cursor::BeginOfFile,
        ordered_list_item_number: None,
        link_end_dest_url: None,
        output: seq![],
        image_dest_url: None,
    }
}

/// Makes sure the output ends in a blank line (unless nothing was written).
pub open spec fn ensure_gap(s: StrippedState) -> StrippedState {
    match s.cursor {
        Cursor::BeginOfLine => StrippedState { output: s.output + "\n"@, cursor: Cursor::EndOfGap, ..s },
        Cursor::EndOfLine => StrippedState {
            output: s.output + "\n\n"@,
            cursor: Cursor::EndOfGap,
            ..s
        },
        _ => s,
    }
}

/// Makes sure the output ends at the start of a line.
pub open spec fn ensure_linebreak(s: StrippedState) -> StrippedState {
    if s.cursor == Cursor::EndOfLine {
        StrippedState { output: s.output + "\n"@, cursor: Cursor::BeginOfLine, ..s }
    } else {
        s
    }
}

pub open spec fn cursor_after(text: Seq<char>) -> Cursor {
    if text.len() > 0 && text.last() == '\n' {
        Cursor::BeginOfLine
    } else {
        Cursor::EndOfLine
    }
}

pub open spec fn tag_begin(s: StrippedState, tag: MdTag) -> StrippedState {
    match tag {
        MdTag::Block => ensure_gap(s),
        MdTag::Inline => s,
        MdTag::Image { dest_url } => StrippedState { image_dest_url: Some(dest_url@), ..s },
        MdTag::Item => {
            let s = ensure_linebreak(s);
            match s.ordered_list_item_number {
                Some(n) => StrippedState {
                    output: s.output + decimal_string(n as nat) + ". "@,
                    ordered_list_item_number: Some(n.wrapping_add(1)),
                    ..s
                },
                None => StrippedState { output: s.output + "- "@, ..s },
            }
        },
        MdTag::Link { dest_url, .. } => StrippedState { link_end_dest_url: Some(dest_url@), ..s },
        MdTag::List { first_number } => StrippedState {
            ordered_list_item_number: first_number,
            ..ensure_linebreak(s)
        },
    }
}

pub open spec fn tag_end(s: StrippedState, tag: MdTagEnd) -> StrippedState {
    match tag {
        MdTagEnd::LinkOrHtmlBlock => match s.link_end_dest_url {
            Some(dest) => StrippedState {
                output: s.output + " ("@ + dest + ")"@,
                link_end_dest_url: None,
                cursor: Cursor::EndOfLine,
                ..s
            },
            None => StrippedState { cursor: Cursor::EndOfLine, ..s },
        },
        MdTagEnd::List => StrippedState {
            ordered_list_item_number: None,
            cursor: Cursor::EndOfLine,
            ..s
        },
        _ => s,
    }
}

/// One step of plain text rendering. While an image caption is read, its
/// text is written and, at the end of the image, its target; everything
/// else inside the image is skipped.
pub open spec fn step(s: StrippedState, event: MdEvent) -> StrippedState {
    match s.image_dest_url {
        Some(dest) => match event {
            MdEvent::End(MdTagEnd::Image) => StrippedState {
                output: s.output + " ("@ + dest + ")"@,
                cursor: Cursor::EndOfLine,
                image_dest_url: None,
                ..s
            },
            MdEvent::Text(text) => StrippedState { output: s.output + text@, ..s },
            _ => s,
        },
        None => match event {
            MdEvent::Text(text) => StrippedState {
                output: s.output + text@,
                cursor: cursor_after(text@),
                ..s
            },
            MdEvent::End(tag) => tag_end(s, tag),
            MdEvent::HardBreak => StrippedState {
                output: s.output + "\n"@,
                cursor: Cursor::BeginOfLine,
                ..s
            },
            MdEvent::Html(text) => if !starts_with(text@, "<"@) {
                let g = ensure_gap(s);
                StrippedState {
                    output: g.output + trim_start(text@),
                    cursor: cursor_after(text@),
                    ..g
                }
            } else {
                s
            },
            MdEvent::Rule => {
                let g = ensure_gap(s);
                StrippedState {
                    output: g.output + "----------------"@,
                    cursor: Cursor::EndOfLine,
                    ..g
                }
            },
            MdEvent::SoftBreak => ensure_linebreak(s),
            MdEvent::Start(tag) => tag_begin(s, tag),
            MdEvent::InlineHtml | MdEvent::Unsupported => s,
        },
    }
}

/// The state after rendering all of `events`.
pub open spec fn render_all(events: Seq<MdEvent>) -> StrippedState
    decreases events.len(),
{
    if events.len() == 0 {
        initial_state()
    } else {
        step(render_all(events.drop_last()), events.last())
    }
}

/// The plain text that `events` render to.
pub open spec fn spec_stripped(events: Seq<MdEvent>) -> Seq<char> {
    render_all(events).output
}

/// The renderer's state in executable form.
struct StrippedRenderer {
    cursor: Cursor,
    ordered_list_item_number: Option<u64>,
    link_end_dest_url: Option<String>,
    output: String,
    image_dest_url: Option<String>,
}


impl StrippedRenderer {
    spec fn state(&self) -> StrippedState {
        StrippedState {
            cursor: self.cursor,
            ordered_list_item_number: self.ordered_list_item_number,
            link_end_dest_url: opt_view(self.link_end_dest_url),
            output: self.output@,
            image_dest_url: opt_view(self.image_dest_url),
        }
    }

    fn ensure_gap(&mut self)
        ensures
            final(self).state() == ensure_gap(old(self).state()),
    {
        match self.cursor {
            Cursor::BeginOfLine => {
                self.output.append("\n");
                self.cursor = Cursor::EndOfGap;
            },
            Cursor::EndOfLine => {
                self.output.append("\n\n");
                self.cursor = Cursor::EndOfGap;
            },
            _ => {},
        }
    }

    fn ensure_linebreak(&mut self)
        ensures
            final(self).state() == ensure_linebreak(old(self).state()),
    {
        if self.cursor == Cursor::EndOfLine {
            self.output.append("\n");
            self.cursor = Cursor::BeginOfLine;
        }
    }

    fn set_cursor_after(&mut self, text: &str)
        ensures
            final(self).state() == (StrippedState { cursor: cursor_after(text@), ..old(self).state() }),
    {
        let n = text.unicode_len();
        if n > 0 && text.get_char(n - 1) == '\n' {
            self.cursor = Cursor::BeginOfLine;
        } else {
            self.cursor = Cursor::EndOfLine;
        }
    }

    fn push_dest(&mut self, dest: &str)
        ensures
            final(self).state() == (StrippedState {
                output: old(self).state().output + " ("@ + dest@ + ")"@,
                ..old(self).state()
            }),
    {
        self.output.append(" (");
        self.output.append(dest);
        self.output.append(")");
    }

    fn render_tag_begin(&mut self, tag: &MdTag)
        requires
            old(self).image_dest_url is None,
        ensures
            final(self).state() == tag_begin(old(self).state(), *tag),
    {
        match tag {
            MdTag::Block => self.ensure_gap(),
            MdTag::Inline => {},
            MdTag::Image { dest_url } => {
                self.image_dest_url = Some(dest_url.clone());
            },
            MdTag::Item => {
                self.ensure_linebreak();
                match self.ordered_list_item_number {
                    Some(number) => {
                        push_decimal(&mut self.output, number);
                        self.output.append(". ");
                        self.ordered_list_item_number = Some(number.wrapping_add(1));
                    },
                    None => {
                        self.output.append("- ");
                    },
                }
            },
            MdTag::Link { dest_url, .. } => {
                self.link_end_dest_url = Some(dest_url.clone());
            },
            MdTag::List { first_number } => {
                self.ensure_linebreak();
                self.ordered_list_item_number = *first_number;
            },
        }
    }

    fn render_tag_end(&mut self, tag: MdTagEnd)
        ensures
            final(self).state() == tag_end(old(self).state(), tag),
    {
        match tag {
            MdTagEnd::LinkOrHtmlBlock => {
                let taken = self.link_end_dest_url.take();
                if let Some(dest_url) = taken {
                    self.push_dest(dest_url.as_str());
                }
                self.cursor = Cursor::EndOfLine;
            },
            MdTagEnd::List => {
                self.ordered_list_item_number = None;
                self.cursor = Cursor::EndOfLine;
            },
            _ => {},
        }
    }

    fn render_event(&mut self, event: &MdEvent)
        ensures
            final(self).state() == step(old(self).state(), *event),
    {
        proof {
            reveal_strlit("<");
        }
        let image = self.image_dest_url.take();
        match image {
            Some(dest_url) => {
                match event {
                    MdEvent::End(MdTagEnd::Image) => {
                        self.push_dest(dest_url.as_str());
                        self.cursor = Cursor::EndOfLine;
                    },
                    MdEvent::Text(text) => {
                        self.output.append(text.as_str());
                        self.image_dest_url = Some(dest_url);
                    },
                    _ => {
                        self.image_dest_url = Some(dest_url);
                    },
                }
            },
            None => match event {
                MdEvent::Text(text) => {
                    self.output.append(text.as_str());
                    self.set_cursor_after(text.as_str());
                },
                MdEvent::End(tag) => self.render_tag_end(*tag),
                MdEvent::HardBreak => {
                    self.output.append("\n");
                    self.cursor = Cursor::BeginOfLine;
                },
                MdEvent::Html(text) => {
                    if !starts_with_str(text.as_str(), "<") {
                        self.ensure_gap();
                        self.output.append(trim_start_str(text.as_str()));
                        self.set_cursor_after(text.as_str());
                    }
                },
                MdEvent::Rule => {
                    self.ensure_gap();
                    self.output.append("----------------");
                    self.cursor = Cursor::EndOfLine;
                },
                MdEvent::SoftBreak => self.ensure_linebreak(),
                MdEvent::Start(tag) => self.render_tag_begin(tag),
                MdEvent::InlineHtml | MdEvent::Unsupported => {},
            },
        }
    }
}

/// Renders markdown (given as its parse events) to plain text stripped of
/// all markup: blocks are separated by blank lines, list items start with
/// "- " or their number, and the targets of links and images follow their
/// text in parentheses.
pub fn render_stripped(events: &Vec<MdEvent>) -> (stripped: String)
    ensures
        stripped@ == spec_stripped(events@),
{
    let mut renderer = StrippedRenderer {
        cursor: Cursor::BeginOfFile,
        ordered_list_item_number: None,
        link_end_dest_url: None,
        output: String::new(),
        image_dest_url: None,
    };
    assert(events@.take(0) =~= Seq::<MdEvent>::empty());
    let mut i: usize = 0;
    while i < events.len()
        invariant
            i <= events@.len(),
            renderer.state() == render_all(events@.take(i as int)),
        decreases events@.len() - i,
    {
        renderer.render_event(&events[i]);
        proof {
            assert(events@.take(i + 1).drop_last() =~= events@.take(i as int));
        }
        i = i + 1;
    }
    assert(events@.take(events@.len() as int) =~= events@);
    renderer.output
}

/// The html that stands in for a horizontal rule.
pub const DIVIDER_HTML: &'static str = "<div class=\"divider\">\n    <span></span>\n    <span></span>\n    <span></span>\n</div>\n";

/// Whether a link is hinted to open in a new tab: only inline links and
/// autolinks, and only where the site has a base url (given without its
/// trailing slash), and then all whose target is neither a pure anchor
/// (such as `#t=3m`) nor on the site itself.
pub open spec fn spec_opens_in_new_tab(
    site_url: Option<Seq<char>>,
    inline_or_autolink: bool,
    dest_url: Seq<char>,
) -> bool {
    &&& inline_or_autolink
    &&& site_url is Some
    &&& !starts_with(dest_url, "#"@)
    &&& !starts_with(dest_url, site_url->0)
}

/// The opening anchor tag of a link that opens in a new tab.
pub open spec fn spec_new_tab_anchor(dest_url: Seq<char>, title: Seq<char>) -> Seq<char> {
    "<a href=\""@ + dest_url + "\" target=\"_blank\">"@ + title
}

/// Decides how the start of a link is rendered to html: `Some` with the
/// inline html of an anchor that opens in a new tab, or `None` where the
/// link is rendered as it is.
pub fn link_start_html(
    site_url: &Option<String>,
    inline_or_autolink: bool,
    dest_url: &str,
    title: &str,
) -> (html: Option<String>)
    ensures
        html is Some <==> spec_opens_in_new_tab(opt_view(*site_url), inline_or_autolink, dest_url@),
        html is Some ==> html->0@ == spec_new_tab_anchor(dest_url@, title@),
{
    if !inline_or_autolink {
        return None;
    }
    match site_url {
        None => None,
        Some(base) => {
            if starts_with_str(dest_url, "#") || starts_with_str(dest_url, base.as_str()) {
                None
            } else {
                let mut html = String::from_str("<a href=\"");
                html.append(dest_url);
                html.append("\" target=\"_blank\">");
                html.append(title);
                Some(html)
            }
        },
    }
}

/// The events of pulldown_cmark's parse.
#[verifier::external_type_specification]
#[verifier::external_body]
pub struct ExEvent<'a>(pulldown_cmark::Event<'a>);

/// The opening tags of pulldown_cmark's parse.
#[verifier::external_type_specification]
#[verifier::external_body]
pub struct ExTag<'a>(pulldown_cmark::Tag<'a>);

/// The closing tags of pulldown_cmark's parse.
#[verifier::external_type_specification]
#[verifier::external_body]
pub struct ExTagEnd(pulldown_cmark::TagEnd);

/// The kinds of links of pulldown_cmark's parse.
#[verifier::external_type_specification]
#[verifier::external_body]
pub struct ExLinkType(pulldown_cmark::LinkType);

/// The name for the events of `pulldown_cmark::Parser::new(text)`, as the
/// library's events.
pub uninterp spec fn markdown_events(text: Seq<char>) -> Seq<MdEvent>;

/// `pulldown_cmark::Parser::new`: the events that parsing `text` (with no
/// extensions enabled) gives, each as the library's event.
#[verifier::external_body]
fn parse_markdown(text: &str) -> (events: Vec<MdEvent>)
    ensures
        events@ == markdown_events(text@),
{
    let mut events = Vec::new();
    for event in Parser::new(text) {
        events.push(md_event(event));
    }
    events
}

/// A parse event as the library's event (math, footnote references and
/// task list markers, which no parse without extensions gives, as
/// `Unsupported`).
#[verifier::external_body]
fn md_event(event: Event) -> MdEvent {
    match event {
        Event::Start(tag) => MdEvent::Start(md_tag(tag)),
        Event::End(tag) => MdEvent::End(md_tag_end(tag)),
        Event::Text(text) | Event::Code(text) => MdEvent::Text(text.into_string()),
        Event::Html(text) => MdEvent::Html(text.into_string()),
        Event::InlineHtml(_) => MdEvent::InlineHtml,
        Event::SoftBreak => MdEvent::SoftBreak,
        Event::HardBreak => MdEvent::HardBreak,
        Event::Rule => MdEvent::Rule,
        Event::InlineMath(_) | Event::DisplayMath(_) | Event::FootnoteReference(_) | Event::TaskListMarker(_) => {
            MdEvent::Unsupported
        },
    }
}

/// An opening tag as the library's tag.
#[verifier::external_body]
fn md_tag(tag: Tag) -> MdTag {
    match tag {
        Tag::Paragraph | Tag::Heading { .. } | Tag::BlockQuote(_) | Tag::CodeBlock(_) | Tag::DefinitionList
        | Tag::DefinitionListTitle | Tag::DefinitionListDefinition => MdTag::Block,
        Tag::Image { dest_url, .. } => MdTag::Image { dest_url: dest_url.into_string() },
        Tag::Item => MdTag::Item,
        Tag::Link { link_type, dest_url, title, .. } => MdTag::Link {
            dest_url: dest_url.into_string(),
            title: title.into_string(),
            inline_or_autolink: is_inline_or_autolink(link_type),
        },
        Tag::List(first_number) => MdTag::List { first_number },
        Tag::HtmlBlock | Tag::Emphasis | Tag::Strong | Tag::Strikethrough | Tag::Superscript | Tag::Subscript
        | Tag::FootnoteDefinition(_) | Tag::Table(_) | Tag::TableHead | Tag::TableRow | Tag::TableCell
        | Tag::MetadataBlock(_) => MdTag::Inline,
    }
}

/// A closing tag as the library's tag.
#[verifier::external_body]
fn md_tag_end(tag: TagEnd) -> MdTagEnd {
    match tag {
        TagEnd::HtmlBlock | TagEnd::Link => MdTagEnd::LinkOrHtmlBlock,
        TagEnd::List(_) => MdTagEnd::List,
        TagEnd::Image => MdTagEnd::Image,
        TagEnd::Paragraph | TagEnd::Heading(_) | TagEnd::BlockQuote(_) | TagEnd::CodeBlock | TagEnd::Item => MdTagEnd::Plain,
        TagEnd::FootnoteDefinition | TagEnd::DefinitionList | TagEnd::DefinitionListTitle => MdTagEnd::Plain,
        TagEnd::DefinitionListDefinition | TagEnd::Table | TagEnd::TableHead | TagEnd::TableRow => MdTagEnd::Plain,
        TagEnd::TableCell | TagEnd::Emphasis | TagEnd::Strong | TagEnd::Strikethrough => MdTagEnd::Plain,
        TagEnd::Superscript | TagEnd::Subscript | TagEnd::MetadataBlock(_) => MdTagEnd::Plain,
    }
}

/// Whether a link is an inline link or an autolink.
#[verifier::external_body]
fn is_inline_or_autolink(link_type: LinkType) -> bool {
    match link_type {
        LinkType::Inline | LinkType::Autolink => true,
        LinkType::Reference | LinkType::ReferenceUnknown | LinkType::Collapsed | LinkType::CollapsedUnknown => false,
        LinkType::Shortcut | LinkType::ShortcutUnknown | LinkType::Email | LinkType::WikiLink { .. } => false,
    }
}

/// How an event is written to html in place of pulldown_cmark's own
/// rendering: `Some((block, html))` writes `html`, as block html where
/// `block` holds, else inline.
pub type Replacement = Option<(bool, String)>;

pub open spec fn replacement_views(replacements: Seq<Replacement>) -> Seq<Option<(bool, Seq<char>)>> {
    replacements.map_values(|r: Replacement| match r {
        Some((block, html)) => Some((block, html@)),
        None => None,
    })
}

/// The name for the html that `pulldown_cmark::html::push_html` writes
/// for the events of `Parser::new(text)`, where the event at each index
/// that `replacements` gives html for is replaced by that html.
pub uninterp spec fn markdown_html(text: Seq<char>, replacements: Seq<Option<(bool, Seq<char>)>>) -> Seq<char>;

/// Block html as a parse event.
#[verifier::external_body]
fn block_html_event<'a>(html: String) -> Event<'a> {
    Event::Html(CowStr::from(html))
}

/// Inline html as a parse event.
#[verifier::external_body]
fn inline_html_event<'a>(html: String) -> Event<'a> {
    Event::InlineHtml(CowStr::from(html))
}

/// The event at `index`, or the html that replaces it.
fn replaced_event<'a>(replacements: &Vec<Replacement>, index: usize, event: Event<'a>) -> Event<'a> {
    if index < replacements.len() {
        match &replacements[index] {
            Some((true, html)) => block_html_event(html.clone()),
            Some((false, html)) => inline_html_event(html.clone()),
            None => event,
        }
    } else {
        event
    }
}

/// `pulldown_cmark::html::push_html` over the events of
/// `Parser::new(text)`, with the events that `replacements` gives html for
/// replaced by it.
#[verifier::external_body]
fn push_html(text: &str, replacements: &Vec<Replacement>) -> (html: String)
    ensures
        html@ == markdown_html(text@, replacement_views(replacements@)),
{
    let mut html = String::new();
    let events = Parser::new(text).enumerate().map(|(i, event)| replaced_event(replacements, i, event));
    pulldown_cmark::html::push_html(&mut html, events);
    html
}

/// How the site writes an event differently from pulldown_cmark: a rule
/// becomes the divider, and an inline link or autolink that opens in a new
/// tab becomes its anchor tag.
pub open spec fn spec_replacement(site_url: Option<Seq<char>>, event: MdEvent) -> Option<(bool, Seq<char>)> {
    match event {
        MdEvent::Rule => Some((true, DIVIDER_HTML@)),
        MdEvent::Start(MdTag::Link { dest_url, title, inline_or_autolink }) => if spec_opens_in_new_tab(
            site_url,
            inline_or_autolink,
            dest_url@,
        ) {
            Some((false, spec_new_tab_anchor(dest_url@, title@)))
        } else {
            None
        },
        _ => None,
    }
}

/// The replacements for each of `events`.
pub open spec fn spec_replacements(site_url: Option<Seq<char>>, events: Seq<MdEvent>) -> Seq<Option<(bool, Seq<char>)>> {
    events.map_values(|e: MdEvent| spec_replacement(site_url, e))
}

/// The replacements for each of `events` (see `spec_replacement`).
pub fn html_replacements(site_url: &Option<String>, events: &Vec<MdEvent>) -> (replacements: Vec<Replacement>)
    ensures
        replacement_views(replacements@) == spec_replacements(opt_view(*site_url), events@),
{
    let mut replacements: Vec<Replacement> = Vec::new();
    let mut i: usize = 0;
    while i < events.len()
        invariant
            i <= events@.len(),
            replacement_views(replacements@) == spec_replacements(opt_view(*site_url), events@.take(i as int)),
        decreases events@.len() - i,
    {
        let replacement: Replacement = match &events[i] {
            MdEvent::Rule => Some((true, String::from_str(DIVIDER_HTML))),
            MdEvent::Start(MdTag::Link { dest_url, title, inline_or_autolink }) => match link_start_html(
                site_url,
                *inline_or_autolink,
                dest_url.as_str(),
                title.as_str(),
            ) {
                Some(anchor) => Some((false, anchor)),
                None => None,
            },
            _ => None,
        };
        let ghost before = replacements@;
        replacements.push(replacement);
        proof {
            assert(replacement_views(replacements@) =~= replacement_views(before).push(
                spec_replacement(opt_view(*site_url), events@[i as int]),
            ));
            assert(spec_replacements(opt_view(*site_url), events@.take(i + 1)) =~= spec_replacements(
                opt_view(*site_url),
                events@.take(i as int),
            ).push(spec_replacement(opt_view(*site_url), events@[i as int])));
        }
        i = i + 1;
    }
    assert(events@.take(events@.len() as int) =~= events@);
    replacements
}

/// The html of a markdown text: pulldown_cmark's rendering, with rules
/// written as the divider and external inline links and autolinks opening
/// in a new tab.
pub open spec fn spec_to_html(site_url: Option<Seq<char>>, markdown_text: Seq<char>) -> Seq<char> {
    markdown_html(markdown_text, spec_replacements(site_url, markdown_events(markdown_text)))
}

/// The plain text of a markdown text.
pub open spec fn spec_to_stripped(markdown_text: Seq<char>) -> Seq<char> {
    spec_stripped(markdown_events(markdown_text))
}

/// Renders markdown to html. `site_url` is the site's base url without its
/// trailing slash, where it has one.
pub fn to_html(site_url: &Option<String>, markdown_text: &str) -> (html: String)
    ensures
        html@ == spec_to_html(opt_view(*site_url), markdown_text@),
{
    let events = parse_markdown(markdown_text);
    let replacements = html_replacements(site_url, &events);
    push_html(markdown_text, &replacements)
}

/// Renders markdown to plain text stripped of all markup (see
/// `render_stripped`).
pub fn to_stripped(markdown_text: &str) -> (stripped: String)
    ensures
        stripped@ == spec_to_stripped(markdown_text@),
{
    render_stripped(&parse_markdown(markdown_text))
}

/// The html and the plain text of a markdown text, from one parse.
pub open spec fn spec_to_html_and_stripped(site_url: Option<Seq<char>>, markdown_text: Seq<char>) -> (Seq<char>, Seq<char>) {
    let events = markdown_events(markdown_text);
    (markdown_html(markdown_text, spec_replacements(site_url, events)), spec_stripped(events))
}

/// Renders markdown both to html and to plain text, from one parse.
pub fn to_html_and_stripped(site_url: &Option<String>, markdown_text: &str) -> (result: HtmlAndStripped)
    ensures
        (result.html@, result.stripped@) == spec_to_html_and_stripped(opt_view(*site_url), markdown_text@),
{
    let events = parse_markdown(markdown_text);
    let replacements = html_replacements(site_url, &events);
    let html = push_html(markdown_text, &replacements);
    HtmlAndStripped { html, stripped: render_stripped(&events) }
}

/// Both renderings come from the same text: the html and the plain text
/// that `to_html_and_stripped` gives are those that `to_html` and
/// `to_stripped` give for the text, and the plain text is the same
/// whatever the site's url.
pub proof fn lemma_html_and_stripped_agree(a: Option<Seq<char>>, b: Option<Seq<char>>, markdown_text: Seq<char>)
    ensures
        spec_to_html_and_stripped(a, markdown_text) == (spec_to_html(a, markdown_text), spec_to_stripped(markdown_text)),
        spec_to_html_and_stripped(a, markdown_text).1 == spec_to_html_and_stripped(b, markdown_text).1,
{
}

} // verus!
