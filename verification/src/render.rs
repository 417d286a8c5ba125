use vstd::prelude::*;

use crate::html::{escape_outside_attribute, html_escape_outside_attribute};
use crate::text::{join, lemma_join_push};

verus! {

/// The markup of the badge that marks unlisted pages, around the
/// translation of the word "unlisted" in the site's language.
pub open spec fn spec_unlisted_badge(t_unlisted: Seq<char>) -> Seq<char> {
    "<span class=\"unlisted\">"@ + t_unlisted + "</span>"@
}

pub fn unlisted_badge(t_unlisted: &str) -> (badge: String)
    ensures
        badge@ == spec_unlisted_badge(t_unlisted@),
{
    let mut badge = String::from_str("<span class=\"unlisted\">");
    badge.append(t_unlisted);
    badge.append("</span>");
    badge
}


/// Whether (and how) a list of artists is cut to fit a number of characters.
#[derive(Clone, Debug)]
pub enum Truncation {
    Pass,
    Truncate { max_chars: usize, others_link: String },
}

/// The artists of a list as they are shown: their markup joined with ", ",
/// and whether some were left out (the caller then appends a link to the
/// others, `others_link`).
#[derive(Clone, Debug)]
pub struct TruncatedList {
    pub html: String,
    pub truncated: bool,
}

/// The sum of the character counts of the first `i` items.
pub open spec fn chars_before(items: Seq<(usize, String)>, i: int) -> int
    decreases i,
{
    if i <= 0 {
        0
    } else {
        chars_before(items, i - 1) + items[i - 1].0
    }
}

/// The markup of all items.
pub open spec fn item_markups(items: Seq<(usize, String)>) -> Seq<Seq<char>> {
    items.map_values(|item: (usize, String)| item.1@)
}

/// Whether the list does not fit: the names and the ", " between each two
/// of them take more than `max_chars` characters.
pub open spec fn exceeds(items: Seq<(usize, String)>, max_chars: usize) -> bool {
    chars_before(items, items.len() as int) + 2 * (items.len() - 1) > max_chars
}

/// In label mode, item `i` is shown if it is the first one with any
/// characters before it counted, or if the names up to and including it
/// take fewer than `max_chars` characters.
pub open spec fn label_shows(items: Seq<(usize, String)>, max_chars: usize, i: int) -> bool {
    chars_before(items, i) == 0 || chars_before(items, i + 1) < max_chars
}

/// The markup of the items shown in label mode, in order.
pub open spec fn label_shown(items: Seq<(usize, String)>, max_chars: usize) -> Seq<Seq<char>>
    decreases items.len(),
{
    if items.len() == 0 {
        seq![]
    } else {
        let shown = label_shown(items.drop_last(), max_chars);
        if label_shows(items, max_chars, items.len() - 1) {
            shown.push(items.last().1@)
        } else {
            shown
        }
    }
}

/// What a list of artists becomes: the markup shown and whether it was cut.
/// Lists of more than two artists that do not fit are cut: in label mode to
/// the artists that fit (at least one), otherwise to the first artist alone
/// (the catalog artist, which the caller sorts first).
pub open spec fn spec_truncate_artist_list(
    items: Seq<(usize, String)>,
    truncation: Truncation,
    label_mode: bool,
) -> (Seq<char>, bool) {
    match truncation {
        Truncation::Truncate { max_chars, .. } => if items.len() > 2 && exceeds(items, max_chars) {
            if label_mode {
                (join(label_shown(items, max_chars), ", "@), true)
            } else {
                (items[0].1@, true)
            }
        } else {
            (join(item_markups(items), ", "@), false)
        },
        Truncation::Pass => (join(item_markups(items), ", "@), false),
    }
}

proof fn lemma_chars_before_drop_last(items: Seq<(usize, String)>, i: int)
    requires
        0 <= i < items.len(),
    ensures
        chars_before(items.drop_last(), i) == chars_before(items, i),
    decreases i,
{
    if i > 0 {
        lemma_chars_before_drop_last(items, i - 1);
    }
}

proof fn lemma_chars_before_monotone(items: Seq<(usize, String)>, i: int, j: int)
    requires
        0 <= i <= j <= items.len(),
    ensures
        chars_before(items, i) <= chars_before(items, j),
    decreases j - i,
{
    if i < j {
        lemma_chars_before_monotone(items, i, j - 1);
    }
}

proof fn lemma_label_shows_drop_last(items: Seq<(usize, String)>, max_chars: usize, i: int)
    requires
        0 <= i < items.len() - 1,
    ensures
        label_shows(items.drop_last(), max_chars, i) == label_shows(items, max_chars, i),
{
    lemma_chars_before_drop_last(items, i);
    lemma_chars_before_drop_last(items, i + 1);
}

/// Writes the markup of all items, joined with `sep`, into `out` (which
/// starts empty).
fn push_joined(out: &mut String, parts: &Vec<(usize, String)>, sep: &str)
    requires
        old(out)@ == Seq::<char>::empty(),
    ensures
        final(out)@ == join(item_markups(parts@), sep@),
{
    let mut i: usize = 0;
    while i < parts.len()
        invariant
            i <= parts@.len(),
            out@ == join(item_markups(parts@.take(i as int)), sep@),
        decreases parts@.len() - i,
    {
        proof {
            assert(item_markups(parts@.take(i + 1)) =~= item_markups(parts@.take(i as int)).push(
                parts@[i as int].1@,
            ));
            lemma_join_push(item_markups(parts@.take(i as int)), sep@, parts@[i as int].1@);
        }
        if i > 0 {
            out.append(sep);
        }
        out.append(parts[i].1.as_str());
        i = i + 1;
    }
    assert(parts@.take(parts@.len() as int) =~= parts@);
}

proof fn lemma_chars_before_take(items: Seq<(usize, String)>, n: int, k: int)
    requires
        0 <= k <= n <= items.len(),
    ensures
        chars_before(items.take(n), k) == chars_before(items, k),
    decreases k,
{
    if k > 0 {
        lemma_chars_before_take(items, n, k - 1);
    }
}

/// `n` saturated at `usize::MAX`.
pub open spec fn saturated(n: int) -> int {
    if n < usize::MAX {
        n
    } else {
        usize::MAX as int
    }
}

/// The character count of all names, where it fits in a `usize`.
fn count_chars(items: &Vec<(usize, String)>) -> (total: Option<usize>)
    ensures
        total == if chars_before(items@, items@.len() as int) <= usize::MAX {
            Some(chars_before(items@, items@.len() as int) as usize)
        } else {
            None::<usize>
        },
{
    let mut total: Option<usize> = Some(0);
    let mut i: usize = 0;
    while i < items.len()
        invariant
            i <= items@.len(),
            total == if chars_before(items@, i as int) <= usize::MAX {
                Some(chars_before(items@, i as int) as usize)
            } else {
                None::<usize>
            },
        decreases items@.len() - i,
    {
        proof {
            lemma_chars_before_monotone(items@, 0, i as int);
        }
        total = match total {
            Some(n) => n.checked_add(items[i].0),
            None => None,
        };
        i = i + 1;
    }
    total
}

/// The markup of the items shown in label mode, joined with ", ".
fn join_label_shown(items: &Vec<(usize, String)>, max_chars: usize) -> (html: String)
    ensures
        html@ == join(label_shown(items@, max_chars), ", "@),
{
    let mut html = String::new();
    let mut shown_any = false;
    let mut used: usize = 0;
    let mut j: usize = 0;
    assert(items@.take(0) =~= Seq::<(usize, String)>::empty());
    while j < items.len()
        invariant
            j <= items@.len(),
            used == saturated(chars_before(items@, j as int)),
            shown_any == (label_shown(items@.take(j as int), max_chars).len() > 0),
            html@ == join(label_shown(items@.take(j as int), max_chars), ", "@),
        decreases items@.len() - j,
    {
        let ghost prefix = items@.take(j as int);
        let ghost next = items@.take(j + 1);
        proof {
            assert(next.drop_last() =~= prefix);
            assert(next.last() == items@[j as int]);
            lemma_chars_before_take(items@, j + 1, j as int);
            lemma_chars_before_take(items@, j + 1, j + 1);
            lemma_chars_before_monotone(items@, 0, j as int);
            lemma_join_push(label_shown(prefix, max_chars), ", "@, items@[j as int].1@);
        }
        let was_zero = used == 0;
        used = used.saturating_add(items[j].0);
        if was_zero || used < max_chars {
            if shown_any {
                html.append(", ");
            }
            html.append(items[j].1.as_str());
            shown_any = true;
        }
        j = j + 1;
    }
    assert(items@.take(items@.len() as int) =~= items@);
    html
}

/// Cuts a list of artists, given as the character count of each name and
/// the markup that shows it, to fit `truncation`; see
/// `spec_truncate_artist_list`.
pub fn truncate_artist_list(
    items: &Vec<(usize, String)>,
    truncation: &Truncation,
    label_mode: bool,
) -> (list: TruncatedList)
    ensures
        (list.html@, list.truncated) == spec_truncate_artist_list(items@, *truncation, label_mode),
{
    if items.len() > 2 {
        if let Truncation::Truncate { max_chars, .. } = truncation {
            let max_chars = *max_chars;
            let separators = items.len() - 1;
            // Whether the names and the separators between them fit.
            let fits = match count_chars(items) {
                Some(name_chars) => match name_chars.checked_add(separators) {
                    Some(partial) => match partial.checked_add(separators) {
                        Some(total) => total <= max_chars,
                        None => false,
                    },
                    None => false,
                },
                None => false,
            };
            proof {
                lemma_chars_before_monotone(items@, 0, items@.len() as int);
            }
            if !fits {
                if label_mode {
                    return TruncatedList { html: join_label_shown(items, max_chars), truncated: true };
                } else {
                    let html = items[0].1.clone();
                    return TruncatedList { html, truncated: true };
                }
            }
        }
    }
    let mut html = String::new();
    push_joined(&mut html, items, ", ");
    TruncatedList { html, truncated: false }
}

/// An artist is shown in label mode only where all artists before it are.
proof fn lemma_label_shows_earlier(items: Seq<(usize, String)>, max_chars: usize, j: int, i: int)
    requires
        0 <= j < i < items.len(),
        label_shows(items, max_chars, i),
    ensures
        label_shows(items, max_chars, j),
{
    lemma_chars_before_monotone(items, j, i);
    lemma_chars_before_monotone(items, j + 1, i + 1);
    lemma_chars_before_monotone(items, 0, j);
}

proof fn lemma_label_shown_is_prefix(items: Seq<(usize, String)>, max_chars: usize) -> (n: int)
    ensures
        0 <= n <= items.len(),
        label_shown(items, max_chars) == item_markups(items).take(n),
        forall|i: int| 0 <= i < n ==> #[trigger] label_shows(items, max_chars, i),
        n < items.len() ==> !label_shows(items, max_chars, n),
    decreases items.len(),
{
    if items.len() == 0 {
        assert(item_markups(items).take(0) =~= Seq::<Seq<char>>::empty());
        0
    } else {
        let init = items.drop_last();
        let last = items.len() - 1;
        let n0 = lemma_label_shown_is_prefix(init, max_chars);
        assert forall|i: int| 0 <= i < n0 implies #[trigger] label_shows(items, max_chars, i) by {
            assert(label_shows(init, max_chars, i));
            lemma_label_shows_drop_last(items, max_chars, i);
        }
        if n0 < last {
            lemma_label_shows_drop_last(items, max_chars, n0);
            if label_shows(items, max_chars, last) {
                lemma_label_shows_earlier(items, max_chars, n0, last);
            }
            assert(item_markups(init).take(n0) =~= item_markups(items).take(n0));
            n0
        } else {
            assert(item_markups(init).take(n0) =~= item_markups(items).take(n0));
            if label_shows(items, max_chars, last) {
                assert(item_markups(items).take(n0).push(items.last().1@) =~= item_markups(items).take(
                    n0 + 1,
                ));
                n0 + 1
            } else {
                n0
            }
        }
    }
}

/// In label mode, a list that is cut shows its leading artists, in order,
/// and always at least the first one.
pub proof fn lemma_label_mode_shows_leading_artists(items: Seq<(usize, String)>, max_chars: usize)
    requires
        items.len() > 0,
    ensures
        exists|n: int|
            1 <= n <= items.len() && label_shown(items, max_chars) == #[trigger] item_markups(items).take(n),
{
    let n = lemma_label_shown_is_prefix(items, max_chars);
    if n == 0 {
        assert(label_shows(items, max_chars, 0));
    }
    assert(1 <= n <= items.len() && label_shown(items, max_chars) == item_markups(items).take(n));
}

/// An artist as an artist list shows it: its index, its name, whether it is unlisted or featured (has its own
/// page), its external page, and its permalink slug.
#[derive(Clone, Debug)]
pub struct ListedArtist {
    pub id: usize,
    pub name: String,
    pub unlisted: bool,
    pub featured: bool,
    pub external_page: Option<String>,
    pub permalink_slug: String,
}

/// What artist lists depend on in the catalog and the page.
#[derive(Clone, Debug)]
pub struct ArtistListContext {
    pub root_prefix: String,
    pub index_suffix: String,
    /// The catalog artist, in artist mode.
    pub catalog_artist: Option<usize>,
    pub label_mode: bool,
    pub feature_support_artists: bool,
    pub show_support_artists: bool,
}

pub open spec fn external_link(link: Seq<char>, name_escaped: Seq<char>) -> Seq<char> {
    "<a href=\""@ + link + "\" target=\"_blank\">"@ + name_escaped + "</a>"@
}

pub open spec fn page_link(ctx: ArtistListContext, slug: Seq<char>, name_escaped: Seq<char>) -> Seq<char> {
    "<a href=\""@ + ctx.root_prefix@ + slug + ctx.index_suffix@ + "\">"@ + name_escaped + "</a>"@
}

pub open spec fn catalog_link(ctx: ArtistListContext, name_escaped: Seq<char>) -> Seq<char> {
    "<a href=\""@ + ctx.root_prefix@ + "."@ + ctx.index_suffix@ + "\">"@ + name_escaped + "</a>"@
}

/// How a main artist of a release is shown: listed artists by their
/// external page, else (in label mode) by their page, else the catalog
/// artist by the home page; otherwise by name.
pub open spec fn main_artist_markup(a: ListedArtist, ctx: ArtistListContext) -> Seq<char> {
    if !a.unlisted && a.external_page is Some {
        external_link(a.external_page->0@, escape_outside_attribute(a.name@))
    } else if !a.unlisted && ctx.label_mode {
        page_link(ctx, a.permalink_slug@, escape_outside_attribute(a.name@))
    } else if !a.unlisted && ctx.catalog_artist == Some(a.id) {
        catalog_link(ctx, escape_outside_attribute(a.name@))
    } else {
        escape_outside_attribute(a.name@)
    }
}

/// How a support artist of a release is shown where support artists are
/// featured: by external page, else by name if unlisted, else by page.
pub open spec fn featured_support_markup(a: ListedArtist, ctx: ArtistListContext) -> Seq<char> {
    if a.external_page is Some {
        external_link(a.external_page->0@, escape_outside_attribute(a.name@))
    } else if a.unlisted {
        escape_outside_attribute(a.name@)
    } else {
        page_link(ctx, a.permalink_slug@, escape_outside_attribute(a.name@))
    }
}

/// How a support artist of a release is shown where support artists are
/// only shown: by external page, else by name.
pub open spec fn shown_support_markup(a: ListedArtist) -> Seq<char> {
    if a.external_page is Some {
        external_link(a.external_page->0@, escape_outside_attribute(a.name@))
    } else {
        escape_outside_attribute(a.name@)
    }
}

/// How an artist of a track is shown: listed artists by external page,
/// else by page if featured, else the catalog artist by the home page;
/// otherwise by name.
pub open spec fn track_artist_markup(a: ListedArtist, ctx: ArtistListContext) -> Seq<char> {
    if !a.unlisted && a.external_page is Some {
        external_link(a.external_page->0@, escape_outside_attribute(a.name@))
    } else if !a.unlisted && a.featured {
        page_link(ctx, a.permalink_slug@, escape_outside_attribute(a.name@))
    } else if !a.unlisted && ctx.catalog_artist == Some(a.id) {
        catalog_link(ctx, escape_outside_attribute(a.name@))
    } else {
        escape_outside_attribute(a.name@)
    }
}

pub open spec fn item_views(items: Seq<(usize, String)>) -> Seq<(int, Seq<char>)> {
    items.map_values(|item: (usize, String)| (item.0 as int, item.1@))
}

/// Whether an artist is picked: the one with id `id` (or, with `matching`
/// false, every other one); every artist where `id` is `None`.
pub open spec fn picks(a: ListedArtist, id: Option<usize>, matching: bool) -> bool {
    match id {
        Some(c) => (a.id == c) == matching,
        None => true,
    }
}

/// The items (character count of the name, markup) of the picked artists
/// among the first `k`, in order.
pub open spec fn picked_items(
    artists: Seq<ListedArtist>,
    ctx: ArtistListContext,
    kind: MarkupKind,
    id: Option<usize>,
    matching: bool,
    k: int,
) -> Seq<(int, Seq<char>)>
    decreases k,
{
    if k <= 0 {
        seq![]
    } else {
        let prev = picked_items(artists, ctx, kind, id, matching, k - 1);
        if picks(artists[k - 1], id, matching) {
            prev.push((artists[k - 1].name@.len() as int, markup_of_kind(kind, artists[k - 1], ctx)))
        } else {
            prev
        }
    }
}

/// The items of `artists` with the catalog artist first, the others in
/// order.
pub open spec fn catalog_artist_first_items(artists: Seq<ListedArtist>, ctx: ArtistListContext, kind: MarkupKind) -> Seq<(int, Seq<char>)> {
    let n = artists.len() as int;
    match ctx.catalog_artist {
        Some(c) => picked_items(artists, ctx, kind, Some(c), true, n) + picked_items(artists, ctx, kind, Some(c), false, n),
        None => picked_items(artists, ctx, kind, None, true, n),
    }
}

/// The items of a release's artist list: its main artists (catalog artist
/// first), then its support artists where the catalog features or shows
/// them.
pub open spec fn spec_release_artist_items(main: Seq<ListedArtist>, support: Seq<ListedArtist>, ctx: ArtistListContext) -> Seq<(int, Seq<char>)> {
    catalog_artist_first_items(main, ctx, MarkupKind::Main) + if ctx.feature_support_artists {
        picked_items(support, ctx, MarkupKind::FeaturedSupport, None, true, support.len() as int)
    } else if ctx.show_support_artists {
        picked_items(support, ctx, MarkupKind::ShownSupport, None, true, support.len() as int)
    } else {
        seq![]
    }
}

/// The items of a track's artist list: its artists, catalog artist first.
pub open spec fn spec_track_artist_items(artists: Seq<ListedArtist>, ctx: ArtistListContext) -> Seq<(int, Seq<char>)> {
    catalog_artist_first_items(artists, ctx, MarkupKind::Track)
}

fn external_link_markup(link: &str, name_escaped: &str) -> (markup: String)
    ensures
        markup@ == external_link(link@, name_escaped@),
{
    let mut markup = String::from_str("<a href=\"");
    markup.append(link);
    markup.append("\" target=\"_blank\">");
    markup.append(name_escaped);
    markup.append("</a>");
    markup
}

fn page_link_markup(ctx: &ArtistListContext, slug: &str, name_escaped: &str) -> (markup: String)
    ensures
        markup@ == page_link(*ctx, slug@, name_escaped@),
{
    let mut markup = String::from_str("<a href=\"");
    markup.append(ctx.root_prefix.as_str());
    markup.append(slug);
    markup.append(ctx.index_suffix.as_str());
    markup.append("\">");
    markup.append(name_escaped);
    markup.append("</a>");
    markup
}

fn catalog_link_markup(ctx: &ArtistListContext, name_escaped: &str) -> (markup: String)
    ensures
        markup@ == catalog_link(*ctx, name_escaped@),
{
    let mut markup = String::from_str("<a href=\"");
    markup.append(ctx.root_prefix.as_str());
    markup.append(".");
    markup.append(ctx.index_suffix.as_str());
    markup.append("\">");
    markup.append(name_escaped);
    markup.append("</a>");
    markup
}

/// Which markup an artist gets in a list: as a main artist of a release,
/// as a support artist where support artists are featured or only shown,
/// or as an artist of a track.
#[derive(Clone, Copy, Debug, PartialEq, Eq, Structural)]
pub enum MarkupKind {
    Main,
    FeaturedSupport,
    ShownSupport,
    Track,
}

pub open spec fn markup_of_kind(kind: MarkupKind, a: ListedArtist, ctx: ArtistListContext) -> Seq<char> {
    match kind {
        MarkupKind::Main => main_artist_markup(a, ctx),
        MarkupKind::FeaturedSupport => featured_support_markup(a, ctx),
        MarkupKind::ShownSupport => shown_support_markup(a),
        MarkupKind::Track => track_artist_markup(a, ctx),
    }
}

fn artist_markup(a: &ListedArtist, ctx: &ArtistListContext, kind: MarkupKind) -> (markup: String)
    ensures
        markup@ == markup_of_kind(kind, *a, *ctx),
{
    let catalog_artist = match ctx.catalog_artist {
        Some(c) => c == a.id,
        None => false,
    };
    let name_escaped = html_escape_outside_attribute(a.name.as_str());
    match kind {
        MarkupKind::Main | MarkupKind::Track => {
            if !a.unlisted {
                if let Some(link) = &a.external_page {
                    return external_link_markup(link.as_str(), name_escaped.as_str());
                }
                let by_page = match kind {
                    MarkupKind::Main => ctx.label_mode,
                    _ => a.featured,
                };
                if by_page {
                    return page_link_markup(ctx, a.permalink_slug.as_str(), name_escaped.as_str());
                }
                if catalog_artist {
                    return catalog_link_markup(ctx, name_escaped.as_str());
                }
            }
            name_escaped
        },
        MarkupKind::FeaturedSupport => {
            if let Some(link) = &a.external_page {
                external_link_markup(link.as_str(), name_escaped.as_str())
            } else if a.unlisted {
                name_escaped
            } else {
                page_link_markup(ctx, a.permalink_slug.as_str(), name_escaped.as_str())
            }
        },
        MarkupKind::ShownSupport => {
            if let Some(link) = &a.external_page {
                external_link_markup(link.as_str(), name_escaped.as_str())
            } else {
                name_escaped
            }
        },
    }
}

/// Appends the items of the picked `artists`, in order.
fn push_items(
    items: &mut Vec<(usize, String)>,
    artists: &Vec<ListedArtist>,
    ctx: &ArtistListContext,
    kind: MarkupKind,
    id: Option<usize>,
    matching: bool,
)
    ensures
        item_views(final(items)@) == item_views(old(items)@) + picked_items(
            artists@,
            *ctx,
            kind,
            id,
            matching,
            artists@.len() as int,
        ),
{
    let ghost start = item_views(items@);
    let mut i: usize = 0;
    while i < artists.len()
        invariant
            i <= artists@.len(),
            item_views(items@) == start + picked_items(artists@, *ctx, kind, id, matching, i as int),
        decreases artists@.len() - i,
    {
        let a = &artists[i];
        let picked = match id {
            Some(c) => (a.id == c) == matching,
            None => true,
        };
        if picked {
            let markup_string = artist_markup(a, ctx, kind);
            let chars = a.name.unicode_len();
            let ghost before = items@;
            items.push((chars, markup_string));
            assert(item_views(items@) =~= item_views(before).push((chars as int, markup_string@)));
        }
        i = i + 1;
    }
}

/// The items (character count of the name, markup) of a release's artist
/// list, to be cut to fit by `truncate_artist_list`.
pub fn release_artist_items(main: &Vec<ListedArtist>, support: &Vec<ListedArtist>, ctx: &ArtistListContext) -> (items: Vec<(usize, String)>)
    ensures
        item_views(items@) == spec_release_artist_items(main@, support@, *ctx),
{
    let mut items: Vec<(usize, String)> = Vec::new();
    assert(item_views(items@) =~= Seq::<(int, Seq<char>)>::empty());
    match ctx.catalog_artist {
        Some(c) => {
            push_items(&mut items, main, ctx, MarkupKind::Main, Some(c), true);
            push_items(&mut items, main, ctx, MarkupKind::Main, Some(c), false);
        },
        None => {
            push_items(&mut items, main, ctx, MarkupKind::Main, None, true);
        },
    }
    if ctx.feature_support_artists {
        push_items(&mut items, support, ctx, MarkupKind::FeaturedSupport, None, true);
    } else if ctx.show_support_artists {
        push_items(&mut items, support, ctx, MarkupKind::ShownSupport, None, true);
    }
    assert(item_views(items@) =~= spec_release_artist_items(main@, support@, *ctx));
    items
}

/// The items of a track's artist list, to be cut to fit by
/// `truncate_artist_list`.
pub fn track_artist_items(artists: &Vec<ListedArtist>, ctx: &ArtistListContext) -> (items: Vec<(usize, String)>)
    ensures
        item_views(items@) == spec_track_artist_items(artists@, *ctx),
{
    let mut items: Vec<(usize, String)> = Vec::new();
    assert(item_views(items@) =~= Seq::<(int, Seq<char>)>::empty());
    match ctx.catalog_artist {
        Some(c) => {
            push_items(&mut items, artists, ctx, MarkupKind::Track, Some(c), true);
            push_items(&mut items, artists, ctx, MarkupKind::Track, Some(c), false);
        },
        None => {
            push_items(&mut items, artists, ctx, MarkupKind::Track, None, true);
        },
    }
    assert(item_views(items@) =~= spec_track_artist_items(artists@, *ctx));
    items
}

} // verus!
