//! Which pages and files a release writes into the build directory, and
//! where: the release page, its download, unlock and purchase pages, its
//! playlist and embed pages, and the same for each of its tracks. The pages
//! themselves are rendered and written by the caller, which also supplies
//! the salted hashes that make download pages hard to guess.

use vstd::prelude::*;

use crate::m3u::M3U_PLAYLIST_FILENAME;
use crate::text::{decimal_string, push_decimal, views};

verus! {

/// How downloads are offered, as far as the pages to write go.
pub enum PageAccess {
    /// With download codes: an unlock page, and a download page per code.
    Code { download_codes: Vec<String> },
    Disabled,
    External,
    Free,
    /// Behind a paycurtain; pages only where there is payment info.
    Paycurtain { has_payment_info: bool },
}

/// The downloads of a release or track, as far as its pages go.
pub struct DownloadPages {
    /// Whether there is anything to download.
    pub available: bool,
    pub access: PageAccess,
    pub unlock_hash: String,
    pub download_hash: String,
    pub purchase_hash: String,
}

/// The translated permalinks of the download related pages.
pub struct PagePermalinks {
    pub unlock: String,
    pub downloads: String,
    pub purchase: String,
}

/// What a planned file is.
#[derive(Clone, Copy, Debug, PartialEq, Eq, Structural)]
pub enum PageKind {
    Release,
    Track,
    Unlock,
    Download,
    Purchase,
    Playlist,
    EmbedCodes,
    Embed,
}

/// A file to write: what it is, and its path below the build directory,
/// segment by segment (a page is written as the index of that directory).
pub struct PlannedFile {
    pub kind: PageKind,
    pub path: Vec<String>,
}

pub open spec fn planned_views(files: Seq<PlannedFile>) -> Seq<(PageKind, Seq<Seq<char>>)> {
    files.map_values(|f: PlannedFile| (f.kind, views(f.path@)))
}

/// The download related pages below `prefix`, and whether the missing
/// payment info is to be warned about.
pub open spec fn download_pages(
    prefix: Seq<Seq<char>>,
    d: DownloadPages,
    t: PagePermalinks,
) -> (Seq<(PageKind, Seq<Seq<char>>)>, bool) {
    if !d.available {
        (seq![], false)
    } else {
        match d.access {
            PageAccess::Code { download_codes } => (
                seq![(PageKind::Unlock, prefix + seq![t.unlock@, d.unlock_hash@])] + download_codes@.map_values(
                    |c: String| (PageKind::Download, prefix + seq![t.downloads@, c@]),
                ),
                false,
            ),
            PageAccess::Disabled | PageAccess::External => (seq![], false),
            PageAccess::Free => (seq![(PageKind::Download, prefix + seq![t.downloads@, d.download_hash@])], false),
            PageAccess::Paycurtain { has_payment_info } => if has_payment_info {
                (
                    seq![
                        (PageKind::Purchase, prefix + seq![t.purchase@, d.purchase_hash@]),
                        (PageKind::Download, prefix + seq![t.downloads@, d.download_hash@]),
                    ],
                    false,
                )
            } else {
                (seq![], true)
            },
        }
    }
}

/// A track of the release, as far as its pages go.
pub struct TrackPages {
    pub embedding: bool,
    pub downloads: DownloadPages,
}

/// The embed pages of the first `k` tracks (numbered from 1) that allow
/// embedding.
pub open spec fn track_embed_pages(slug: Seq<char>, tracks: Seq<TrackPages>, k: int) -> Seq<(PageKind, Seq<Seq<char>>)>
    decreases k,
{
    if k <= 0 {
        seq![]
    } else {
        let n = decimal_string(k as nat);
        track_embed_pages(slug, tracks, k - 1) + if tracks[k - 1].embedding {
            seq![(PageKind::EmbedCodes, seq![slug, n, "embed"@]), (PageKind::Embed, seq![slug, "embed"@, n])]
        } else {
            seq![]
        }
    }
}

/// The pages of the first `k` tracks: each track's page, then its
/// download related pages.
pub open spec fn track_pages(slug: Seq<char>, tracks: Seq<TrackPages>, t: PagePermalinks, k: int) -> Seq<
    (PageKind, Seq<Seq<char>>),
>
    decreases k,
{
    if k <= 0 {
        seq![]
    } else {
        let n = decimal_string(k as nat);
        track_pages(slug, tracks, t, k - 1) + seq![(PageKind::Track, seq![slug, n])] + download_pages(
            seq![slug, n],
            tracks[k - 1].downloads,
            t,
        ).0
    }
}

/// Whether some of the first `k` tracks lacks the payment info its
/// paycurtain needs.
pub open spec fn tracks_lack_payment_info(slug: Seq<char>, tracks: Seq<TrackPages>, t: PagePermalinks, k: int) -> Seq<bool>
    decreases k,
{
    if k <= 0 {
        seq![]
    } else {
        tracks_lack_payment_info(slug, tracks, t, k - 1).push(
            download_pages(seq![slug, decimal_string(k as nat)], tracks[k - 1].downloads, t).1,
        )
    }
}

/// All files a release writes, in order: its page, its download related
/// pages; where the site has a base url, its playlist (where enabled), its
/// embed pages (where embedding is enabled) and those of its tracks; then
/// each track's page and download related pages.
pub open spec fn spec_release_pages(
    slug: Seq<char>,
    downloads: DownloadPages,
    t: PagePermalinks,
    has_base_url: bool,
    m3u: bool,
    embedding: bool,
    tracks: Seq<TrackPages>,
) -> Seq<(PageKind, Seq<Seq<char>>)> {
    seq![(PageKind::Release, seq![slug])] + download_pages(seq![slug], downloads, t).0 + if has_base_url {
        (if m3u {
            seq![(PageKind::Playlist, seq![slug, M3U_PLAYLIST_FILENAME@])]
        } else {
            seq![]
        }) + (if embedding {
            seq![(PageKind::EmbedCodes, seq![slug, "embed"@]), (PageKind::Embed, seq![slug, "embed"@, "all"@])]
        } else {
            seq![]
        }) + track_embed_pages(slug, tracks, tracks.len() as int)
    } else {
        seq![]
    } + track_pages(slug, tracks, t, tracks.len() as int)
}

fn push_file(files: &mut Vec<PlannedFile>, kind: PageKind, path: Vec<String>)
    ensures
        planned_views(final(files)@) == planned_views(old(files)@).push((kind, views(path@))),
{
    let ghost before = files@;
    files.push(PlannedFile { kind, path });
    assert(planned_views(files@) =~= planned_views(before).push((kind, views(path@))));
}

fn path_of(prefix: &Vec<String>, a: &str, b: &str) -> (path: Vec<String>)
    ensures
        views(path@) == views(prefix@) + seq![a@, b@],
{
    let mut path: Vec<String> = Vec::new();
    let mut i: usize = 0;
    while i < prefix.len()
        invariant
            i <= prefix@.len(),
            views(path@) == views(prefix@.take(i as int)),
        decreases prefix@.len() - i,
    {
        let ghost before = path@;
        path.push(prefix[i].clone());
        assert(views(path@) =~= views(before).push(prefix@[i as int]@));
        assert(views(prefix@.take(i + 1)) =~= views(prefix@.take(i as int)).push(prefix@[i as int]@));
        i = i + 1;
    }
    assert(prefix@.take(prefix@.len() as int) =~= prefix@);
    let ghost before = path@;
    path.push(String::from_str(a));
    path.push(String::from_str(b));
    assert(views(path@) =~= views(before) + seq![a@, b@]);
    path
}

fn plan_download_pages(files: &mut Vec<PlannedFile>, prefix: &Vec<String>, d: &DownloadPages, t: &PagePermalinks) -> (warn: bool)
    ensures
        planned_views(final(files)@) == planned_views(old(files)@) + download_pages(views(prefix@), *d, *t).0,
        warn == download_pages(views(prefix@), *d, *t).1,
{
    let ghost start = planned_views(files@);
    if !d.available {
        assert(planned_views(files@) =~= start + Seq::<(PageKind, Seq<Seq<char>>)>::empty());
        return false;
    }
    match &d.access {
        PageAccess::Code { download_codes } => {
            push_file(files, PageKind::Unlock, path_of(prefix, t.unlock.as_str(), d.unlock_hash.as_str()));
            let ghost mid = planned_views(files@);
            let ghost codes = download_codes@.map_values(
                |c: String| (PageKind::Download, views(prefix@) + seq![t.downloads@, c@]),
            );
            let mut i: usize = 0;
            while i < download_codes.len()
                invariant
                    i <= download_codes@.len(),
                    codes == download_codes@.map_values(
                        |c: String| (PageKind::Download, views(prefix@) + seq![t.downloads@, c@]),
                    ),
                    planned_views(files@) == mid + codes.take(i as int),
                decreases download_codes@.len() - i,
            {
                push_file(files, PageKind::Download, path_of(prefix, t.downloads.as_str(), download_codes[i].as_str()));
                assert(codes.take(i + 1) =~= codes.take(i as int).push(codes[i as int]));
                i = i + 1;
            }
            assert(codes.take(codes.len() as int) =~= codes);
            assert(planned_views(files@) =~= start + download_pages(views(prefix@), *d, *t).0);
            false
        },
        PageAccess::Disabled | PageAccess::External => {
            assert(planned_views(files@) =~= start + Seq::<(PageKind, Seq<Seq<char>>)>::empty());
            false
        },
        PageAccess::Free => {
            push_file(files, PageKind::Download, path_of(prefix, t.downloads.as_str(), d.download_hash.as_str()));
            assert(planned_views(files@) =~= start + download_pages(views(prefix@), *d, *t).0);
            false
        },
        PageAccess::Paycurtain { has_payment_info } => {
            if *has_payment_info {
                push_file(files, PageKind::Purchase, path_of(prefix, t.purchase.as_str(), d.purchase_hash.as_str()));
                push_file(files, PageKind::Download, path_of(prefix, t.downloads.as_str(), d.download_hash.as_str()));
                assert(planned_views(files@) =~= start + download_pages(views(prefix@), *d, *t).0);
                false
            } else {
                assert(planned_views(files@) =~= start + Seq::<(PageKind, Seq<Seq<char>>)>::empty());
                true
            }
        },
    }
}

fn segments1(a: &str) -> (path: Vec<String>)
    ensures
        views(path@) == seq![a@],
{
    let mut path: Vec<String> = Vec::new();
    path.push(String::from_str(a));
    assert(views(path@) =~= seq![a@]);
    path
}

fn segments2(a: &str, b: &str) -> (path: Vec<String>)
    ensures
        views(path@) == seq![a@, b@],
{
    let mut path: Vec<String> = Vec::new();
    path.push(String::from_str(a));
    path.push(String::from_str(b));
    assert(views(path@) =~= seq![a@, b@]);
    path
}

fn segments3(a: &str, b: &str, c: &str) -> (path: Vec<String>)
    ensures
        views(path@) == seq![a@, b@, c@],
{
    let mut path: Vec<String> = Vec::new();
    path.push(String::from_str(a));
    path.push(String::from_str(b));
    path.push(String::from_str(c));
    assert(views(path@) =~= seq![a@, b@, c@]);
    path
}

fn decimal_string_of(n: usize) -> (s: String)
    ensures
        s@ == decimal_string(n as nat),
{
    let mut s = String::new();
    push_decimal(&mut s, n as u64);
    assert(s@ =~= decimal_string(n as nat));
    s
}

/// The files a release writes (see `spec_release_pages`), and for the
/// release and for each track (numbered from 1) whether its paycurtain
/// lacks payment info, so that no purchase or download page is written.
pub fn release_pages(
    slug: &str,
    downloads: &DownloadPages,
    permalinks: &PagePermalinks,
    has_base_url: bool,
    m3u: bool,
    embedding: bool,
    tracks: &Vec<TrackPages>,
) -> (plan: (Vec<PlannedFile>, bool, Vec<bool>))
    requires
        tracks@.len() < usize::MAX,
    ensures
        planned_views(plan.0@) == spec_release_pages(slug@, *downloads, *permalinks, has_base_url, m3u, embedding, tracks@),
        plan.1 == download_pages(seq![slug@], *downloads, *permalinks).1,
        plan.2@ == tracks_lack_payment_info(slug@, tracks@, *permalinks, tracks@.len() as int),
{
    let mut files: Vec<PlannedFile> = Vec::new();
    push_file(&mut files, PageKind::Release, segments1(slug));
    let release_prefix = segments1(slug);
    let warn = plan_download_pages(&mut files, &release_prefix, downloads, permalinks);
    let ghost head = planned_views(files@);
    assert(head =~= seq![(PageKind::Release, seq![slug@])] + download_pages(seq![slug@], *downloads, *permalinks).0);
    if has_base_url {
        if m3u {
            push_file(&mut files, PageKind::Playlist, segments2(slug, M3U_PLAYLIST_FILENAME));
        }
        if embedding {
            push_file(&mut files, PageKind::EmbedCodes, segments2(slug, "embed"));
            push_file(&mut files, PageKind::Embed, segments3(slug, "embed", "all"));
        }
        let ghost mid = planned_views(files@);
        let mut i: usize = 0;
        while i < tracks.len()
            invariant
                i <= tracks@.len(),
                tracks@.len() < usize::MAX,
                planned_views(files@) == mid + track_embed_pages(slug@, tracks@, i as int),
            decreases tracks@.len() - i,
        {
            let n = decimal_string_of(i + 1);
            if tracks[i].embedding {
                push_file(&mut files, PageKind::EmbedCodes, segments3(slug, n.as_str(), "embed"));
                push_file(&mut files, PageKind::Embed, segments3(slug, "embed", n.as_str()));
            }
            assert(planned_views(files@) =~= mid + track_embed_pages(slug@, tracks@, i + 1));
            i = i + 1;
        }
        assert(planned_views(files@) =~= head + (if m3u {
            seq![(PageKind::Playlist, seq![slug@, M3U_PLAYLIST_FILENAME@])]
        } else {
            seq![]
        }) + (if embedding {
            seq![(PageKind::EmbedCodes, seq![slug@, "embed"@]), (PageKind::Embed, seq![slug@, "embed"@, "all"@])]
        } else {
            seq![]
        }) + track_embed_pages(slug@, tracks@, tracks@.len() as int));
    }
    let ghost middle = planned_views(files@);
    let mut lacks: Vec<bool> = Vec::new();
    let mut k: usize = 0;
    while k < tracks.len()
        invariant
            k <= tracks@.len(),
            tracks@.len() < usize::MAX,
            planned_views(files@) == middle + track_pages(slug@, tracks@, *permalinks, k as int),
            lacks@ == tracks_lack_payment_info(slug@, tracks@, *permalinks, k as int),
        decreases tracks@.len() - k,
    {
        let n = decimal_string_of(k + 1);
        push_file(&mut files, PageKind::Track, segments2(slug, n.as_str()));
        let prefix = segments2(slug, n.as_str());
        let lack = plan_download_pages(&mut files, &prefix, &tracks[k].downloads, permalinks);
        lacks.push(lack);
        assert(planned_views(files@) =~= middle + track_pages(slug@, tracks@, *permalinks, k + 1));
        k = k + 1;
    }
    (files, warn, lacks)
}

/// The warning for a release behind a paycurtain without payment info.
pub open spec fn release_payment_info_message(title: Seq<char>) -> Seq<char> {
    "No payment info specified for release '"@ + title
        + "', no purchase/download option will be displayed for this release."@
}

/// The warning for a release behind a paycurtain without payment info.
pub fn release_payment_info_warning(title: &str) -> (warning: String)
    ensures
        warning@ == release_payment_info_message(title@),
{
    let mut warning = String::from_str("No payment info specified for release '");
    warning.append(title);
    warning.append("', no purchase/download option will be displayed for this release.");
    warning
}

/// The warning for a track behind a paycurtain without payment info (which
/// names the release's title).
pub open spec fn track_payment_info_message(release_title: Seq<char>) -> Seq<char> {
    "No payment info specified for track '"@ + release_title
        + "', no purchase/download option will be displayed for this track."@
}

/// The warning for a track behind a paycurtain without payment info.
pub fn track_payment_info_warning(release_title: &str) -> (warning: String)
    ensures
        warning@ == track_payment_info_message(release_title@),
{
    let mut warning = String::from_str("No payment info specified for track '");
    warning.append(release_title);
    warning.append("', no purchase/download option will be displayed for this track.");
    warning
}

} // verus!
