use vstd::prelude::*;

use crate::asset::{marked_at, Asset, Timestamp};
use crate::cover_generator::ProceduralCover;
use crate::image::{artist_fixed, artist_fluid, cover_all, ArtistAsset, ArtistAssets, CoverAsset, CoverAssets, FeedImageAsset};
use crate::fair_dir::EntryKind;
use crate::text::{decimal_string, ends_with, ends_with_str, push_decimal, str_equal};

verus! {

/// The strategy by which unused cache data is removed.
#[derive(Clone, Copy, Debug, PartialEq, Eq, Structural)]
pub enum CacheOptimization {
    Default,
    Delayed,
    Immediate,
    Manual,
    Wipe,
}

/// The strategy that a manifest key selects, if any.
pub open spec fn spec_from_manifest_key(key: Seq<char>) -> Option<CacheOptimization> {
    if key == "delayed"@ {
        Some(CacheOptimization::Delayed)
    } else if key == "immediate"@ {
        Some(CacheOptimization::Immediate)
    } else if key == "manual"@ {
        Some(CacheOptimization::Manual)
    } else if key == "wipe"@ {
        Some(CacheOptimization::Wipe)
    } else {
        None
    }
}

/// The human readable name of a strategy.
pub open spec fn spec_label(optimization: CacheOptimization) -> Seq<char> {
    match optimization {
        CacheOptimization::Default => "Default"@,
        CacheOptimization::Delayed => "Delayed"@,
        CacheOptimization::Immediate => "Immediate"@,
        CacheOptimization::Manual => "Manual"@,
        CacheOptimization::Wipe => "Wipe"@,
    }
}

/// `s` with the ASCII capital letters made small; other characters stay.
pub open spec fn ascii_lowercase(s: Seq<char>) -> Seq<char> {
    s.map_values(|c: char| if 'A' <= c && c <= 'Z' {
        ((c as u32) + 32) as char
    } else {
        c
    })
}

/// Reading a strategy from a manifest undoes its label up to case: the
/// label of each strategy but the default, lowercased, is the manifest key
/// that gives that strategy back. The default strategy has no key.
pub proof fn lemma_manifest_key_undoes_label(optimization: CacheOptimization)
    ensures
        optimization != CacheOptimization::Default ==> spec_from_manifest_key(ascii_lowercase(spec_label(optimization)))
            == Some(optimization),
        optimization == CacheOptimization::Default ==> spec_from_manifest_key(ascii_lowercase(spec_label(optimization)))
            == None::<CacheOptimization>,
{
    reveal_strlit("Default");
    reveal_strlit("Delayed");
    reveal_strlit("Immediate");
    reveal_strlit("Manual");
    reveal_strlit("Wipe");
    reveal_strlit("default");
    reveal_strlit("delayed");
    reveal_strlit("immediate");
    reveal_strlit("manual");
    reveal_strlit("wipe");
    let lowered = ascii_lowercase(spec_label(optimization));
    match optimization {
        CacheOptimization::Default => {
            assert(lowered.len() == 7);
            assert(lowered[0] == 'd');
            assert(lowered != "delayed"@) by { assert(lowered[2] != "delayed"@[2]); }
            assert(lowered != "immediate"@) by { assert(lowered.len() != "immediate"@.len()); }
            assert(lowered != "manual"@) by { assert(lowered.len() != "manual"@.len()); }
            assert(lowered != "wipe"@) by { assert(lowered.len() != "wipe"@.len()); }
        },
        CacheOptimization::Delayed => {
            assert(lowered =~= "delayed"@);
        },
        CacheOptimization::Immediate => {
            assert(lowered =~= "immediate"@);
        },
        CacheOptimization::Manual => {
            assert(lowered =~= "manual"@);
        },
        CacheOptimization::Wipe => {
            assert(lowered =~= "wipe"@);
        },
    }
}

/// One day, in microseconds.
pub const DAY_MICROS: i64 = 86_400_000_000;

/// Whether data that was marked stale at `marked_stale` may be removed in a
/// build that began at `build_begin`: with the default and delayed strategy
/// once it has been unused for more than 24 hours, with the immediate and
/// wipe strategy at once, with the manual strategy never.
pub open spec fn spec_obsolete(
    optimization: CacheOptimization,
    build_begin: Timestamp,
    marked_stale: Option<Timestamp>,
) -> bool {
    match marked_stale {
        Some(stamp) => match optimization {
            CacheOptimization::Default | CacheOptimization::Delayed => build_begin.micros
                - stamp.micros > DAY_MICROS,
            CacheOptimization::Immediate | CacheOptimization::Wipe => true,
            CacheOptimization::Manual => false,
        },
        None => false,
    }
}

impl CacheOptimization {
    /// The strategy selected by a manifest key, or `None` for an unknown key.
    pub fn from_manifest_key(key: &str) -> (optimization: Option<CacheOptimization>)
        ensures
            optimization == spec_from_manifest_key(key@),
    {
        if str_equal(key, "delayed") {
            Some(CacheOptimization::Delayed)
        } else if str_equal(key, "immediate") {
            Some(CacheOptimization::Immediate)
        } else if str_equal(key, "manual") {
            Some(CacheOptimization::Manual)
        } else if str_equal(key, "wipe") {
            Some(CacheOptimization::Wipe)
        } else {
            None
        }
    }

    /// The human readable name of this strategy.
    pub fn label(&self) -> (label: &'static str)
        ensures
            label@ == spec_label(*self),
    {
        match self {
            CacheOptimization::Default => "Default",
            CacheOptimization::Delayed => "Delayed",
            CacheOptimization::Immediate => "Immediate",
            CacheOptimization::Manual => "Manual",
            CacheOptimization::Wipe => "Wipe",
        }
    }

    /// Whether data marked stale at `marked_stale` may be removed under this
    /// strategy in a build that began at `build_begin`.
    pub fn obsolete(&self, build_begin: Timestamp, marked_stale: &Option<Timestamp>) -> (obsolete:
        bool)
        ensures
            obsolete == spec_obsolete(*self, build_begin, *marked_stale),
    {
        match marked_stale {
            Some(stamp) => match self {
                CacheOptimization::Default | CacheOptimization::Delayed => {
                    (build_begin.micros as i128) - (stamp.micros as i128) > DAY_MICROS as i128
                },
                CacheOptimization::Immediate | CacheOptimization::Wipe => true,
                CacheOptimization::Manual => false,
            },
            None => false,
        }
    }
}

/// How many of the assets are marked stale.
pub open spec fn stale_count(assets: Seq<Asset>) -> nat
    decreases assets.len(),
{
    if assets.len() == 0 {
        0
    } else {
        stale_count(assets.drop_last()) + if assets.last().marked_stale is Some {
            1nat
        } else {
            0nat
        }
    }
}

/// The total size of the assets that are marked stale.
pub open spec fn stale_bytes(assets: Seq<Asset>) -> nat
    decreases assets.len(),
{
    if assets.len() == 0 {
        0
    } else {
        stale_bytes(assets.drop_last()) + if assets.last().marked_stale is Some {
            assets.last().filesize_bytes as nat
        } else {
            0nat
        }
    }
}

/// Adds the number and total size of the stale assets among the transcodes
/// (given by their assets) to the running totals.
pub fn report_stale_transcodes(assets: &Vec<Asset>, num_unused: &mut u32, unused_bytesize: &mut u64)
    requires
        *old(num_unused) + stale_count(assets@) <= u32::MAX,
        *old(unused_bytesize) + stale_bytes(assets@) <= u64::MAX,
    ensures
        *final(num_unused) == *old(num_unused) + stale_count(assets@),
        *final(unused_bytesize) == *old(unused_bytesize) + stale_bytes(assets@),
{
    report_stale_assets(assets, num_unused, unused_bytesize);
}

/// Adds the number and total size of the stale assets among the archives
/// (given by their assets) to the running totals.
pub fn report_stale_archives(assets: &Vec<Asset>, num_unused: &mut u32, unused_bytesize: &mut u64)
    requires
        *old(num_unused) + stale_count(assets@) <= u32::MAX,
        *old(unused_bytesize) + stale_bytes(assets@) <= u64::MAX,
    ensures
        *final(num_unused) == *old(num_unused) + stale_count(assets@),
        *final(unused_bytesize) == *old(unused_bytesize) + stale_bytes(assets@),
{
    report_stale_assets(assets, num_unused, unused_bytesize);
}

fn report_stale_assets(assets: &Vec<Asset>, num_unused: &mut u32, unused_bytesize: &mut u64)
    requires
        *old(num_unused) + stale_count(assets@) <= u32::MAX,
        *old(unused_bytesize) + stale_bytes(assets@) <= u64::MAX,
    ensures
        *final(num_unused) == *old(num_unused) + stale_count(assets@),
        *final(unused_bytesize) == *old(unused_bytesize) + stale_bytes(assets@),
{
    let ghost start_count = *num_unused;
    let ghost start_bytes = *unused_bytesize;
    let mut i: usize = 0;
    while i < assets.len()
        invariant
            i <= assets@.len(),
            start_count + stale_count(assets@) <= u32::MAX,
            start_bytes + stale_bytes(assets@) <= u64::MAX,
            *num_unused == start_count + stale_count(assets@.take(i as int)),
            *unused_bytesize == start_bytes + stale_bytes(assets@.take(i as int)),
        decreases assets@.len() - i,
    {
        proof {
            assert(assets@.take(i + 1).drop_last() =~= assets@.take(i as int));
            lemma_stale_prefix_bounded(assets@, i + 1);
        }
        if assets[i].is_stale() {
            *num_unused = *num_unused + 1;
            *unused_bytesize = *unused_bytesize + assets[i].filesize_bytes;
        }
        i = i + 1;
    }
    assert(assets@.take(assets@.len() as int) =~= assets@);
}

proof fn lemma_stale_prefix_bounded(assets: Seq<Asset>, n: int)
    requires
        0 <= n <= assets.len(),
    ensures
        stale_count(assets.take(n)) <= stale_count(assets),
        stale_bytes(assets.take(n)) <= stale_bytes(assets),
    decreases assets.len() - n,
{
    if n < assets.len() {
        lemma_stale_prefix_bounded(assets, n + 1);
        assert(assets.take(n + 1).drop_last() =~= assets.take(n));
    } else {
        assert(assets.take(n) =~= assets);
    }
}

/// Adds a stale procedural cover (counted once, with the size of all four of
/// its variants) to the running totals.
pub fn report_stale_procedural_cover(
    procedural_cover: &ProceduralCover,
    num_unused: &mut u32,
    unused_bytesize: &mut u64,
)
    requires
        procedural_cover.marked_stale is Some ==> *old(num_unused) + 1 <= u32::MAX,
        procedural_cover.marked_stale is Some ==> *old(unused_bytesize)
            + procedural_cover.total_filesize() <= u64::MAX,
    ensures
        procedural_cover.marked_stale is Some ==> *final(num_unused) == *old(num_unused) + 1,
        procedural_cover.marked_stale is Some ==> *final(unused_bytesize) == *old(unused_bytesize)
            + procedural_cover.total_filesize(),
        procedural_cover.marked_stale is None ==> *final(num_unused) == *old(num_unused),
        procedural_cover.marked_stale is None ==> *final(unused_bytesize) == *old(unused_bytesize),
{
    if procedural_cover.is_stale() {
        *num_unused = *num_unused + 1;
        *unused_bytesize = *unused_bytesize + procedural_cover.asset_120.filesize_bytes;
        *unused_bytesize = *unused_bytesize + procedural_cover.asset_240.filesize_bytes;
        *unused_bytesize = *unused_bytesize + procedural_cover.asset_480.filesize_bytes;
        *unused_bytesize = *unused_bytesize + procedural_cover.asset_720.filesize_bytes;
    }
}


/// The sum of the sizes.
pub open spec fn total_size(sizes: Seq<u64>) -> nat
    decreases sizes.len(),
{
    if sizes.len() == 0 {
        0
    } else {
        total_size(sizes.drop_last()) + sizes.last() as nat
    }
}

pub open spec fn artist_sizes(assets: ArtistAssets) -> Seq<u64> {
    (artist_fixed(assets) + artist_fluid(assets)).map_values(|a: ArtistAsset| a.filesize_bytes)
}

pub open spec fn cover_sizes(assets: CoverAssets) -> Seq<u64> {
    cover_all(assets).map_values(|a: CoverAsset| a.filesize_bytes)
}

/// The sizes of the stale cache files of an image: its background and feed
/// versions where each is stale, and all its artist or cover versions
/// where they are stale as a set.
pub open spec fn stale_image_sizes(image: CachedImage) -> Seq<u64> {
    (match image.background_asset {
        Some(a) => if a.marked_stale is Some {
            seq![a.filesize_bytes]
        } else {
            seq![]
        },
        None => seq![],
    }) + (match image.feed_asset {
        Some(a) => if a.marked_stale is Some {
            seq![a.filesize_bytes]
        } else {
            seq![]
        },
        None => seq![],
    }) + (match image.artist_assets {
        Some(a) => if a.marked_stale is Some {
            artist_sizes(a)
        } else {
            seq![]
        },
        None => seq![],
    }) + (match image.cover_assets {
        Some(a) => if a.marked_stale is Some {
            cover_sizes(a)
        } else {
            seq![]
        },
        None => seq![],
    })
}

proof fn lemma_total_size_prefix(sizes: Seq<u64>, n: int)
    requires
        0 <= n <= sizes.len(),
    ensures
        total_size(sizes.take(n)) <= total_size(sizes),
    decreases sizes.len() - n,
{
    if n < sizes.len() {
        lemma_total_size_prefix(sizes, n + 1);
        assert(sizes.take(n + 1).drop_last() =~= sizes.take(n));
    } else {
        assert(sizes.take(n) =~= sizes);
    }
}

fn report_sizes(sizes: &Vec<u64>, num_unused: &mut u32, unused_bytesize: &mut u64)
    requires
        *old(num_unused) + sizes@.len() <= u32::MAX,
        *old(unused_bytesize) + total_size(sizes@) <= u64::MAX,
    ensures
        *final(num_unused) == *old(num_unused) + sizes@.len(),
        *final(unused_bytesize) == *old(unused_bytesize) + total_size(sizes@),
{
    let ghost start_count = *num_unused;
    let ghost start_bytes = *unused_bytesize;
    let mut i: usize = 0;
    while i < sizes.len()
        invariant
            i <= sizes@.len(),
            start_count + sizes@.len() <= u32::MAX,
            start_bytes + total_size(sizes@) <= u64::MAX,
            *num_unused == start_count + i,
            *unused_bytesize == start_bytes + total_size(sizes@.take(i as int)),
        decreases sizes@.len() - i,
    {
        proof {
            assert(sizes@.take(i + 1).drop_last() =~= sizes@.take(i as int));
            lemma_total_size_prefix(sizes@, i + 1);
        }
        *num_unused = *num_unused + 1;
        *unused_bytesize = *unused_bytesize + sizes[i];
        i = i + 1;
    }
    assert(sizes@.take(sizes@.len() as int) =~= sizes@);
}

fn push_artist_sizes(sizes: &mut Vec<u64>, assets: &ArtistAssets)
    ensures
        final(sizes)@ == old(sizes)@ + artist_sizes(*assets),
{
    let all = assets.all();
    let ghost start = sizes@;
    let ghost all_sizes = all@.map_values(|a: &ArtistAsset| a.filesize_bytes);
    assert(all_sizes =~= artist_sizes(*assets));
    let mut i: usize = 0;
    while i < all.len()
        invariant
            i <= all@.len(),
            all_sizes == all@.map_values(|a: &ArtistAsset| a.filesize_bytes),
            sizes@ == start + all_sizes.take(i as int),
        decreases all@.len() - i,
    {
        sizes.push(all[i].filesize_bytes);
        assert(all_sizes.take(i + 1) =~= all_sizes.take(i as int).push(all_sizes[i as int]));
        i = i + 1;
    }
    assert(all_sizes.take(all_sizes.len() as int) =~= all_sizes);
}

fn push_cover_sizes(sizes: &mut Vec<u64>, assets: &CoverAssets)
    ensures
        final(sizes)@ == old(sizes)@ + cover_sizes(*assets),
{
    let all = assets.all();
    let ghost start = sizes@;
    let ghost all_sizes = all@.map_values(|a: &CoverAsset| a.filesize_bytes);
    assert(all_sizes =~= cover_sizes(*assets));
    let mut i: usize = 0;
    while i < all.len()
        invariant
            i <= all@.len(),
            all_sizes == all@.map_values(|a: &CoverAsset| a.filesize_bytes),
            sizes@ == start + all_sizes.take(i as int),
        decreases all@.len() - i,
    {
        sizes.push(all[i].filesize_bytes);
        assert(all_sizes.take(i + 1) =~= all_sizes.take(i as int).push(all_sizes[i as int]));
        i = i + 1;
    }
    assert(all_sizes.take(all_sizes.len() as int) =~= all_sizes);
}

/// Adds an image's stale cache files (see `stale_image_sizes`), one by one,
/// to the running totals.
pub fn report_stale_images(image: &CachedImage, num_unused: &mut u32, unused_bytesize: &mut u64)
    requires
        *old(num_unused) + stale_image_sizes(*image).len() <= u32::MAX,
        *old(unused_bytesize) + total_size(stale_image_sizes(*image)) <= u64::MAX,
    ensures
        *final(num_unused) == *old(num_unused) + stale_image_sizes(*image).len(),
        *final(unused_bytesize) == *old(unused_bytesize) + total_size(stale_image_sizes(*image)),
{
    let mut sizes: Vec<u64> = Vec::new();
    if let Some(asset) = &image.background_asset {
        if asset.is_stale() {
            sizes.push(asset.filesize_bytes);
        }
    }
    if let Some(asset) = &image.feed_asset {
        if asset.is_stale() {
            sizes.push(asset.filesize_bytes);
        }
    }
    if let Some(assets) = &image.artist_assets {
        if assets.is_stale() {
            push_artist_sizes(&mut sizes, assets);
        }
    }
    if let Some(assets) = &image.cover_assets {
        if assets.is_stale() {
            push_cover_sizes(&mut sizes, assets);
        }
    }
    assert(sizes@ =~= stale_image_sizes(*image));
    report_sizes(&sizes, num_unused, unused_bytesize);
}


/// Once data is obsolete it stays obsolete in every later build, under the
/// same strategy.
pub proof fn lemma_obsolete_stays_obsolete(
    optimization: CacheOptimization,
    build_begin: Timestamp,
    later_build_begin: Timestamp,
    marked_stale: Option<Timestamp>,
)
    requires
        build_begin.micros <= later_build_begin.micros,
        spec_obsolete(optimization, build_begin, marked_stale),
    ensures
        spec_obsolete(optimization, later_build_begin, marked_stale),
{
}

/// Data that is in use is never obsolete, and with manual optimization
/// nothing ever is.
pub proof fn lemma_never_obsolete(optimization: CacheOptimization, build_begin: Timestamp, marked_stale: Option<Timestamp>)
    ensures
        marked_stale is None ==> !spec_obsolete(optimization, build_begin, marked_stale),
        optimization == CacheOptimization::Manual ==> !spec_obsolete(optimization, build_begin, marked_stale),
{
}

/// A place in the catalog where a cached source file was seen, and since
/// when it is not seen there anymore.
#[derive(Clone, Debug)]
pub struct CacheView {
    pub path: String,
    pub marked_stale: Option<Timestamp>,
}

/// The cached versions of a source image, and where the image was seen.
#[derive(Clone, Debug)]
pub struct CachedImage {
    pub artist_assets: Option<ArtistAssets>,
    pub background_asset: Option<Asset>,
    pub cover_assets: Option<CoverAssets>,
    pub feed_asset: Option<FeedImageAsset>,
    pub views: Vec<CacheView>,
}

/// What maintaining a cache entry did: the cache files to delete, and
/// whether the entry itself is kept (else its manifest is deleted too).
#[derive(Clone, Debug)]
pub struct Maintenance {
    pub removed_files: Vec<String>,
    pub keep_container: bool,
}

/// The first `k` views that are not obsolete, in order.
pub open spec fn kept_views(views: Seq<CacheView>, optimization: CacheOptimization, build_begin: Timestamp, k: int) -> Seq<
    CacheView,
>
    decreases k,
{
    if k <= 0 {
        seq![]
    } else if spec_obsolete(optimization, build_begin, views[k - 1].marked_stale) {
        kept_views(views, optimization, build_begin, k - 1)
    } else {
        kept_views(views, optimization, build_begin, k - 1).push(views[k - 1])
    }
}

/// An optional cache file obsolete: removed.
pub open spec fn removed<T>(asset: Option<T>, stale: spec_fn(T) -> Option<Timestamp>, optimization: CacheOptimization, build_begin: Timestamp) -> bool {
    asset matches Some(a) && spec_obsolete(optimization, build_begin, stale(a))
}

/// An optional cache file present and not obsolete: kept.
pub open spec fn kept<T>(asset: Option<T>, stale: spec_fn(T) -> Option<Timestamp>, optimization: CacheOptimization, build_begin: Timestamp) -> bool {
    asset matches Some(a) && !spec_obsolete(optimization, build_begin, stale(a))
}

pub open spec fn artist_filenames(assets: ArtistAssets) -> Seq<Seq<char>> {
    (artist_fixed(assets) + artist_fluid(assets)).map_values(|a: ArtistAsset| a.filename@)
}

pub open spec fn cover_filenames(assets: CoverAssets) -> Seq<Seq<char>> {
    cover_all(assets).map_values(|a: CoverAsset| a.filename@)
}

/// The files of an image's cache entry that maintenance removes: the
/// obsolete background and feed versions, and all artist or cover versions
/// where they are obsolete as a set.
pub open spec fn image_removed_files(image: CachedImage, optimization: CacheOptimization, build_begin: Timestamp) -> Seq<Seq<char>> {
    (if removed(image.background_asset, |a: Asset| a.marked_stale, optimization, build_begin) {
        seq![image.background_asset->0.filename@]
    } else {
        seq![]
    }) + (if removed(image.feed_asset, |a: FeedImageAsset| a.marked_stale, optimization, build_begin) {
        seq![image.feed_asset->0.filename@]
    } else {
        seq![]
    }) + (if removed(image.artist_assets, |a: ArtistAssets| a.marked_stale, optimization, build_begin) {
        artist_filenames(image.artist_assets->0)
    } else {
        seq![]
    }) + (if removed(image.cover_assets, |a: CoverAssets| a.marked_stale, optimization, build_begin) {
        cover_filenames(image.cover_assets->0)
    } else {
        seq![]
    })
}

pub open spec fn filenames(v: Seq<String>) -> Seq<Seq<char>> {
    v.map_values(|s: String| s@)
}

/// The views that are not obsolete, in order.
fn keep_fresh_views(views: &Vec<CacheView>, optimization: CacheOptimization, build_begin: Timestamp) -> (kept: Vec<CacheView>)
    ensures
        kept@ == kept_views(views@, optimization, build_begin, views@.len() as int),
{
    let mut remaining: Vec<CacheView> = Vec::new();
    let mut i: usize = 0;
    while i < views.len()
        invariant
            i <= views@.len(),
            remaining@ == kept_views(views@, optimization, build_begin, i as int),
        decreases views@.len() - i,
    {
        if !optimization.obsolete(build_begin, &views[i].marked_stale) {
            let view = CacheView { path: views[i].path.clone(), marked_stale: views[i].marked_stale };
            assert(view == views@[i as int]);
            remaining.push(view);
        }
        i = i + 1;
    }
    remaining
}

/// Appends the filenames of `assets` to `files`.
fn push_filenames_artist(files: &mut Vec<String>, assets: &ArtistAssets)
    ensures
        filenames(final(files)@) == filenames(old(files)@) + artist_filenames(*assets),
{
    let all = assets.all();
    let ghost start = filenames(files@);
    let mut j: usize = 0;
    while j < all.len()
        invariant
            j <= all@.len(),
            all@.map_values(|a: &ArtistAsset| *a) == artist_fixed(*assets) + artist_fluid(*assets),
            filenames(files@) == start + all@.take(j as int).map_values(|a: &ArtistAsset| a.filename@),
        decreases all@.len() - j,
    {
        let ghost before = files@;
        files.push(all[j].filename.clone());
        assert(filenames(files@) =~= filenames(before).push(all@[j as int].filename@));
        assert(all@.take(j + 1).map_values(|a: &ArtistAsset| a.filename@) =~= all@.take(j as int).map_values(
            |a: &ArtistAsset| a.filename@,
        ).push(all@[j as int].filename@));
        j = j + 1;
    }
    assert(all@.take(all@.len() as int) =~= all@);
    assert(all@.map_values(|a: &ArtistAsset| a.filename@) =~= artist_filenames(*assets)) by {
        assert forall|x: int| 0 <= x < all@.len() implies all@.map_values(|a: &ArtistAsset| a.filename@)[x]
            == artist_filenames(*assets)[x] by {
            assert(all@.map_values(|a: &ArtistAsset| *a)[x] == *all@[x]);
        }
    }
}

/// Appends the filenames of `assets` to `files`.
fn push_filenames_cover(files: &mut Vec<String>, assets: &CoverAssets)
    ensures
        filenames(final(files)@) == filenames(old(files)@) + cover_filenames(*assets),
{
    let all = assets.all();
    let ghost start = filenames(files@);
    let mut j: usize = 0;
    while j < all.len()
        invariant
            j <= all@.len(),
            all@.map_values(|a: &CoverAsset| *a) == cover_all(*assets),
            filenames(files@) == start + all@.take(j as int).map_values(|a: &CoverAsset| a.filename@),
        decreases all@.len() - j,
    {
        let ghost before = files@;
        files.push(all[j].filename.clone());
        assert(filenames(files@) =~= filenames(before).push(all@[j as int].filename@));
        assert(all@.take(j + 1).map_values(|a: &CoverAsset| a.filename@) =~= all@.take(j as int).map_values(
            |a: &CoverAsset| a.filename@,
        ).push(all@[j as int].filename@));
        j = j + 1;
    }
    assert(all@.take(all@.len() as int) =~= all@);
    assert(all@.map_values(|a: &CoverAsset| a.filename@) =~= cover_filenames(*assets)) by {
        assert forall|x: int| 0 <= x < all@.len() implies all@.map_values(|a: &CoverAsset| a.filename@)[x]
            == cover_filenames(*assets)[x] by {
            assert(all@.map_values(|a: &CoverAsset| *a)[x] == *all@[x]);
        }
    }
}

fn maintain_background(
    asset: &mut Option<Asset>,
    files: &mut Vec<String>,
    optimization: CacheOptimization,
    build_begin: Timestamp,
) -> (keep: bool)
    ensures
        keep == kept(*old(asset), |a: Asset| a.marked_stale, optimization, build_begin),
        *final(asset) == if removed(*old(asset), |a: Asset| a.marked_stale, optimization, build_begin) {
            None
        } else {
            *old(asset)
        },
        filenames(final(files)@) == filenames(old(files)@) + if removed(*old(asset), |a: Asset| a.marked_stale, optimization, build_begin) {
            seq![old(asset)->0.filename@]
        } else {
            Seq::<Seq<char>>::empty()
        },
{
    let obsolete = match asset {
        Some(a) => Some(optimization.obsolete(build_begin, &a.marked_stale)),
        None => None,
    };
    match obsolete {
        Some(true) => {
            let taken = asset.take();
            if let Some(a) = taken {
                let ghost before = files@;
                files.push(a.filename);
                assert(filenames(files@) =~= filenames(before).push(a.filename@));
            }
            false
        },
        Some(false) => {
            assert(filenames(files@) =~= filenames(files@) + Seq::<Seq<char>>::empty());
            true
        },
        None => {
            assert(filenames(files@) =~= filenames(files@) + Seq::<Seq<char>>::empty());
            false
        },
    }
}

fn maintain_feed(
    asset: &mut Option<FeedImageAsset>,
    files: &mut Vec<String>,
    optimization: CacheOptimization,
    build_begin: Timestamp,
) -> (keep: bool)
    ensures
        keep == kept(*old(asset), |a: FeedImageAsset| a.marked_stale, optimization, build_begin),
        *final(asset) == if removed(*old(asset), |a: FeedImageAsset| a.marked_stale, optimization, build_begin) {
            None
        } else {
            *old(asset)
        },
        filenames(final(files)@) == filenames(old(files)@) + if removed(*old(asset), |a: FeedImageAsset| a.marked_stale, optimization, build_begin) {
            seq![old(asset)->0.filename@]
        } else {
            Seq::<Seq<char>>::empty()
        },
{
    let obsolete = match asset {
        Some(a) => Some(optimization.obsolete(build_begin, &a.marked_stale)),
        None => None,
    };
    match obsolete {
        Some(true) => {
            let taken = asset.take();
            if let Some(a) = taken {
                let ghost before = files@;
                files.push(a.filename);
                assert(filenames(files@) =~= filenames(before).push(a.filename@));
            }
            false
        },
        Some(false) => {
            assert(filenames(files@) =~= filenames(files@) + Seq::<Seq<char>>::empty());
            true
        },
        None => {
            assert(filenames(files@) =~= filenames(files@) + Seq::<Seq<char>>::empty());
            false
        },
    }
}

fn maintain_artist_assets(
    assets: &mut Option<ArtistAssets>,
    files: &mut Vec<String>,
    optimization: CacheOptimization,
    build_begin: Timestamp,
) -> (keep: bool)
    ensures
        keep == kept(*old(assets), |a: ArtistAssets| a.marked_stale, optimization, build_begin),
        *final(assets) == if removed(*old(assets), |a: ArtistAssets| a.marked_stale, optimization, build_begin) {
            None
        } else {
            *old(assets)
        },
        filenames(final(files)@) == filenames(old(files)@) + if removed(*old(assets), |a: ArtistAssets| a.marked_stale, optimization, build_begin) {
            artist_filenames(old(assets)->0)
        } else {
            Seq::<Seq<char>>::empty()
        },
{
    let obsolete = match assets {
        Some(a) => Some(optimization.obsolete(build_begin, &a.marked_stale)),
        None => None,
    };
    match obsolete {
        Some(true) => {
            let taken = assets.take();
            if let Some(a) = taken {
                push_filenames_artist(files, &a);
            }
            false
        },
        Some(false) => {
            assert(filenames(files@) =~= filenames(files@) + Seq::<Seq<char>>::empty());
            true
        },
        None => {
            assert(filenames(files@) =~= filenames(files@) + Seq::<Seq<char>>::empty());
            false
        },
    }
}

fn maintain_cover_assets(
    assets: &mut Option<CoverAssets>,
    files: &mut Vec<String>,
    optimization: CacheOptimization,
    build_begin: Timestamp,
) -> (keep: bool)
    ensures
        keep == kept(*old(assets), |a: CoverAssets| a.marked_stale, optimization, build_begin),
        *final(assets) == if removed(*old(assets), |a: CoverAssets| a.marked_stale, optimization, build_begin) {
            None
        } else {
            *old(assets)
        },
        filenames(final(files)@) == filenames(old(files)@) + if removed(*old(assets), |a: CoverAssets| a.marked_stale, optimization, build_begin) {
            cover_filenames(old(assets)->0)
        } else {
            Seq::<Seq<char>>::empty()
        },
{
    let obsolete = match assets {
        Some(a) => Some(optimization.obsolete(build_begin, &a.marked_stale)),
        None => None,
    };
    match obsolete {
        Some(true) => {
            let taken = assets.take();
            if let Some(a) = taken {
                push_filenames_cover(files, &a);
            }
            false
        },
        Some(false) => {
            assert(filenames(files@) =~= filenames(files@) + Seq::<Seq<char>>::empty());
            true
        },
        None => {
            assert(filenames(files@) =~= filenames(files@) + Seq::<Seq<char>>::empty());
            false
        },
    }
}

fn marked_at_exec(stamp: Option<Timestamp>, timestamp: &Timestamp) -> (marked: Option<Timestamp>)
    ensures
        marked == marked_at(stamp, *timestamp),
{
    match stamp {
        Some(earlier) => Some(earlier),
        None => Some(*timestamp),
    }
}

/// A view marked stale at `timestamp` (unless it already was).
pub open spec fn view_marked(v: CacheView, timestamp: Timestamp) -> CacheView {
    CacheView { path: v.path, marked_stale: marked_at(v.marked_stale, timestamp) }
}

impl CachedImage {
    /// Marks all versions and views of the image stale at `timestamp`
    /// (those already stale keep their stamp); whatever the build then uses
    /// is marked as in use again.
    pub fn mark_all_stale(&mut self, timestamp: &Timestamp)
        ensures
            final(self).background_asset == match old(self).background_asset {
                Some(a) => Some(Asset { marked_stale: marked_at(a.marked_stale, *timestamp), ..a }),
                None => None,
            },
            final(self).feed_asset == match old(self).feed_asset {
                Some(a) => Some(FeedImageAsset { marked_stale: marked_at(a.marked_stale, *timestamp), ..a }),
                None => None,
            },
            final(self).artist_assets == match old(self).artist_assets {
                Some(a) => Some(ArtistAssets { marked_stale: marked_at(a.marked_stale, *timestamp), ..a }),
                None => None,
            },
            final(self).cover_assets == match old(self).cover_assets {
                Some(a) => Some(CoverAssets { marked_stale: marked_at(a.marked_stale, *timestamp), ..a }),
                None => None,
            },
            final(self).views@ == old(self).views@.map_values(|v: CacheView| view_marked(v, *timestamp)),
    {
        if let Some(assets) = &mut self.artist_assets {
            assets.mark_stale(timestamp);
        }
        if let Some(asset) = &mut self.background_asset {
            asset.mark_stale(timestamp);
        }
        if let Some(assets) = &mut self.cover_assets {
            assets.mark_stale(timestamp);
        }
        if let Some(asset) = &mut self.feed_asset {
            asset.mark_stale(timestamp);
        }
        let ghost before = self.views@;
        let mut views: Vec<CacheView> = Vec::new();
        let mut i: usize = 0;
        while i < self.views.len()
            invariant
                i <= self.views@.len(),
                before == self.views@,
                views@ == before.take(i as int).map_values(|v: CacheView| view_marked(v, *timestamp)),
            decreases self.views@.len() - i,
        {
            let view = CacheView {
                path: self.views[i].path.clone(),
                marked_stale: marked_at_exec(self.views[i].marked_stale, timestamp),
            };
            proof {
                assert(before.take(i + 1) =~= before.take(i as int).push(before[i as int]));
                assert(before.take(i + 1).map_values(|v: CacheView| view_marked(v, *timestamp)) =~= before.take(
                    i as int,
                ).map_values(|v: CacheView| view_marked(v, *timestamp)).push(view_marked(before[i as int], *timestamp)));
            }
            views.push(view);
            i = i + 1;
        }
        assert(before.take(before.len() as int) =~= before);
        self.views = views;
    }

    /// Removes the obsolete views and versions of the image: the views that
    /// are obsolete, the background and feed versions where obsolete, and
    /// the artist or cover versions where obsolete as a set. The entry is
    /// kept where any version remains.
    pub fn maintain(&mut self, optimization: CacheOptimization, build_begin: Timestamp) -> (m: Maintenance)
        ensures
            final(self).views@ == kept_views(old(self).views@, optimization, build_begin, old(self).views@.len() as int),
            final(self).background_asset == if removed(old(self).background_asset, |a: Asset| a.marked_stale, optimization, build_begin) {
                None
            } else {
                old(self).background_asset
            },
            final(self).feed_asset == if removed(old(self).feed_asset, |a: FeedImageAsset| a.marked_stale, optimization, build_begin) {
                None
            } else {
                old(self).feed_asset
            },
            final(self).artist_assets == if removed(old(self).artist_assets, |a: ArtistAssets| a.marked_stale, optimization, build_begin) {
                None
            } else {
                old(self).artist_assets
            },
            final(self).cover_assets == if removed(old(self).cover_assets, |a: CoverAssets| a.marked_stale, optimization, build_begin) {
                None
            } else {
                old(self).cover_assets
            },
            filenames(m.removed_files@) == image_removed_files(*old(self), optimization, build_begin),
            m.keep_container == (kept(old(self).background_asset, |a: Asset| a.marked_stale, optimization, build_begin)
                || kept(old(self).feed_asset, |a: FeedImageAsset| a.marked_stale, optimization, build_begin)
                || kept(old(self).artist_assets, |a: ArtistAssets| a.marked_stale, optimization, build_begin)
                || kept(old(self).cover_assets, |a: CoverAssets| a.marked_stale, optimization, build_begin)),
    {
        let views = keep_fresh_views(&self.views, optimization, build_begin);
        self.views = views;
        let mut removed_files: Vec<String> = Vec::new();
        assert(filenames(removed_files@) =~= Seq::<Seq<char>>::empty());
        let keep_background = maintain_background(&mut self.background_asset, &mut removed_files, optimization, build_begin);
        let keep_feed = maintain_feed(&mut self.feed_asset, &mut removed_files, optimization, build_begin);
        let keep_artist = maintain_artist_assets(&mut self.artist_assets, &mut removed_files, optimization, build_begin);
        let keep_cover = maintain_cover_assets(&mut self.cover_assets, &mut removed_files, optimization, build_begin);
        assert(filenames(removed_files@) =~= image_removed_files(*old(self), optimization, build_begin));
        Maintenance { removed_files, keep_container: keep_background || keep_feed || keep_artist || keep_cover }
    }
}

/// The versions (of some format each) among the first `k` whose cache
/// file is not obsolete, in order.
pub open spec fn kept_versions<F>(versions: Seq<(F, Asset)>, optimization: CacheOptimization, build_begin: Timestamp, k: int) -> Seq<(F, Asset)>
    decreases k,
{
    if k <= 0 {
        seq![]
    } else if spec_obsolete(optimization, build_begin, versions[k - 1].1.marked_stale) {
        kept_versions(versions, optimization, build_begin, k - 1)
    } else {
        kept_versions(versions, optimization, build_begin, k - 1).push(versions[k - 1])
    }
}

/// The cache files of the obsolete versions among the first `k`, in order.
pub open spec fn obsolete_version_files<F>(versions: Seq<(F, Asset)>, optimization: CacheOptimization, build_begin: Timestamp, k: int) -> Seq<Seq<char>>
    decreases k,
{
    if k <= 0 {
        seq![]
    } else if spec_obsolete(optimization, build_begin, versions[k - 1].1.marked_stale) {
        obsolete_version_files(versions, optimization, build_begin, k - 1).push(versions[k - 1].1.filename@)
    } else {
        obsolete_version_files(versions, optimization, build_begin, k - 1)
    }
}

/// Removes the versions (of transcodes or archives, each of some format)
/// whose cache file is obsolete; the entry is kept where any remain.
pub fn maintain_versions<F>(versions: Vec<(F, Asset)>, optimization: CacheOptimization, build_begin: Timestamp) -> (result: (Vec<(F, Asset)>, Maintenance))
    ensures
        result.0@ == kept_versions(versions@, optimization, build_begin, versions@.len() as int),
        filenames(result.1.removed_files@) == obsolete_version_files(versions@, optimization, build_begin, versions@.len() as int),
        result.1.keep_container == (result.0@.len() > 0),
{
    let ghost all = versions@;
    let n = versions.len();
    let mut rest = versions;
    let mut kept: Vec<(F, Asset)> = Vec::new();
    let mut removed_files: Vec<String> = Vec::new();
    let mut k: usize = 0;
    while rest.len() > 0
        invariant
            k <= all.len(),
            all.len() == n,
            rest@ == all.subrange(k as int, all.len() as int),
            kept@ == kept_versions(all, optimization, build_begin, k as int),
            filenames(removed_files@) == obsolete_version_files(all, optimization, build_begin, k as int),
        decreases rest@.len(),
    {
        let version = rest.remove(0);
        assert(version == all[k as int]);
        assert(rest@ =~= all.subrange(k + 1, all.len() as int));
        if optimization.obsolete(build_begin, &version.1.marked_stale) {
            let ghost before = removed_files@;
            removed_files.push(version.1.filename);
            assert(filenames(removed_files@) =~= filenames(before).push(all[k as int].1.filename@));
        } else {
            kept.push(version);
        }
        k = k + 1;
    }
    let keep_container = kept.len() > 0;
    (kept, Maintenance { removed_files, keep_container })
}

/// What maintaining a procedural cover does: where it is obsolete, its
/// four files are removed (and the entry with them), else it is kept.
pub fn maintain_procedural_cover(cover: &ProceduralCover, optimization: CacheOptimization, build_begin: Timestamp) -> (m: Maintenance)
    ensures
        m.keep_container == !spec_obsolete(optimization, build_begin, cover.marked_stale),
        filenames(m.removed_files@) == if spec_obsolete(optimization, build_begin, cover.marked_stale) {
            seq![
                cover.asset_120.filename@,
                cover.asset_240.filename@,
                cover.asset_480.filename@,
                cover.asset_720.filename@,
            ]
        } else {
            Seq::<Seq<char>>::empty()
        },
{
    let mut removed_files: Vec<String> = Vec::new();
    if optimization.obsolete(build_begin, &cover.marked_stale) {
        removed_files.push(cover.asset_120.filename.clone());
        removed_files.push(cover.asset_240.filename.clone());
        removed_files.push(cover.asset_480.filename.clone());
        removed_files.push(cover.asset_720.filename.clone());
        assert(filenames(removed_files@) =~= seq![
            cover.asset_120.filename@,
            cover.asset_240.filename@,
            cover.asset_480.filename@,
            cover.asset_720.filename@,
        ]);
        Maintenance { removed_files, keep_container: false }
    } else {
        assert(filenames(removed_files@) =~= Seq::<Seq<char>>::empty());
        Maintenance { removed_files, keep_container: true }
    }
}

proof fn lemma_versions_partition<F>(versions: Seq<(F, Asset)>, optimization: CacheOptimization, build_begin: Timestamp, k: int)
    requires
        0 <= k <= versions.len(),
    ensures
        kept_versions(versions, optimization, build_begin, k).len() + obsolete_version_files(versions, optimization, build_begin, k).len() == k,
        forall|i: int| 0 <= i < kept_versions(versions, optimization, build_begin, k).len()
            ==> !spec_obsolete(optimization, build_begin, #[trigger] kept_versions(versions, optimization, build_begin, k)[i].1.marked_stale),
    decreases k,
{
    if k > 0 {
        lemma_versions_partition(versions, optimization, build_begin, k - 1);
        let prev = kept_versions(versions, optimization, build_begin, k - 1);
        let cur = kept_versions(versions, optimization, build_begin, k);
        assert forall|i: int| 0 <= i < cur.len() implies !spec_obsolete(optimization, build_begin, #[trigger] cur[i].1.marked_stale) by {
            if i < prev.len() {
                assert(cur[i] == prev[i]);
            }
        }
    }
}

/// Maintenance sorts every version into kept or removed: as many remain and
/// go as there were, and no version that remains is obsolete.
pub proof fn lemma_maintenance_partitions_versions<F>(versions: Seq<(F, Asset)>, optimization: CacheOptimization, build_begin: Timestamp)
    ensures
        kept_versions(versions, optimization, build_begin, versions.len() as int).len() + obsolete_version_files(
            versions,
            optimization,
            build_begin,
            versions.len() as int,
        ).len() == versions.len(),
        forall|i: int| 0 <= i < kept_versions(versions, optimization, build_begin, versions.len() as int).len()
            ==> !spec_obsolete(
                optimization,
                build_begin,
                #[trigger] kept_versions(versions, optimization, build_begin, versions.len() as int)[i].1.marked_stale,
            ),
{
    lemma_versions_partition(versions, optimization, build_begin, versions.len() as int);
}

proof fn lemma_manual_keeps_versions<F>(versions: Seq<(F, Asset)>, build_begin: Timestamp, k: int)
    requires
        0 <= k <= versions.len(),
    ensures
        kept_versions(versions, CacheOptimization::Manual, build_begin, k) == versions.take(k),
        obsolete_version_files(versions, CacheOptimization::Manual, build_begin, k).len() == 0,
    decreases k,
{
    if k > 0 {
        lemma_manual_keeps_versions(versions, build_begin, k - 1);
        assert(versions.take(k) =~= versions.take(k - 1).push(versions[k - 1]));
    } else {
        assert(versions.take(0) =~= Seq::<(F, Asset)>::empty());
    }
}

proof fn lemma_manual_keeps_views(views: Seq<CacheView>, build_begin: Timestamp, k: int)
    requires
        0 <= k <= views.len(),
    ensures
        kept_views(views, CacheOptimization::Manual, build_begin, k) == views.take(k),
    decreases k,
{
    if k > 0 {
        lemma_manual_keeps_views(views, build_begin, k - 1);
        assert(views.take(k) =~= views.take(k - 1).push(views[k - 1]));
    } else {
        assert(views.take(0) =~= Seq::<CacheView>::empty());
    }
}

/// Under manual cache optimization, maintenance removes nothing: all views
/// and versions stay, and no file is deleted.
pub proof fn lemma_manual_cache_keeps_everything<F>(
    versions: Seq<(F, Asset)>,
    views: Seq<CacheView>,
    image: CachedImage,
    build_begin: Timestamp,
)
    ensures
        kept_versions(versions, CacheOptimization::Manual, build_begin, versions.len() as int) == versions,
        obsolete_version_files(versions, CacheOptimization::Manual, build_begin, versions.len() as int).len() == 0,
        kept_views(views, CacheOptimization::Manual, build_begin, views.len() as int) == views,
        image_removed_files(image, CacheOptimization::Manual, build_begin).len() == 0,
{
    lemma_manual_keeps_versions(versions, build_begin, versions.len() as int);
    assert(versions.take(versions.len() as int) =~= versions);
    lemma_manual_keeps_views(views, build_begin, views.len() as int);
    assert(views.take(views.len() as int) =~= views);
}

/// The file that marks the cache directory's layout version.
pub const CACHE_VERSION_MARKER: &'static str = "cache1.marker";

/// The key in the names of cached archive manifests; it changes with each
/// change to their data layout, so that older manifests are not read.
pub const ARCHIVES_CACHE_SERIALIZATION_KEY: &'static str = "archives1";

/// The key in the names of cached image manifests.
pub const IMAGE_CACHE_SERIALIZATION_KEY: &'static str = "image2";

/// The key in the names of cached procedural cover manifests.
pub const PROCEDURAL_COVER_CACHE_SERIALIZATION_KEY: &'static str = "procedural_cover1";

/// What a cache manifest holds, as its name tells.
#[derive(Clone, Copy, Debug, PartialEq, Eq, Structural)]
pub enum CacheManifestKind {
    Archives,
    Image,
    ProceduralCover,
    Transcodes,
    /// Written by another version: removed.
    Incompatible,
}

/// The ending of the names of manifests with a serialization key.
pub open spec fn manifest_suffix(key: Seq<char>) -> Seq<char> {
    "."@ + key + ".bincode"@
}

/// What a cache manifest holds, by the ending of its name.
pub open spec fn spec_manifest_kind(file_name: Seq<char>, transcodes_key: Seq<char>) -> CacheManifestKind {
    if ends_with(file_name, manifest_suffix(ARCHIVES_CACHE_SERIALIZATION_KEY@)) {
        CacheManifestKind::Archives
    } else if ends_with(file_name, manifest_suffix(IMAGE_CACHE_SERIALIZATION_KEY@)) {
        CacheManifestKind::Image
    } else if ends_with(file_name, manifest_suffix(PROCEDURAL_COVER_CACHE_SERIALIZATION_KEY@)) {
        CacheManifestKind::ProceduralCover
    } else if ends_with(file_name, manifest_suffix(transcodes_key)) {
        CacheManifestKind::Transcodes
    } else {
        CacheManifestKind::Incompatible
    }
}

fn has_manifest_suffix(file_name: &str, key: &str) -> (b: bool)
    ensures
        b == ends_with(file_name@, manifest_suffix(key@)),
{
    let mut suffix = String::from_str(".");
    suffix.append(key);
    suffix.append(".bincode");
    assert(suffix@ =~= manifest_suffix(key@));
    ends_with_str(file_name, suffix.as_str())
}

/// What a cache manifest holds, by the ending of its name; the key of
/// transcode manifests is given.
pub fn manifest_kind(file_name: &str, transcodes_key: &str) -> (kind: CacheManifestKind)
    ensures
        kind == spec_manifest_kind(file_name@, transcodes_key@),
{
    if has_manifest_suffix(file_name, ARCHIVES_CACHE_SERIALIZATION_KEY) {
        CacheManifestKind::Archives
    } else if has_manifest_suffix(file_name, IMAGE_CACHE_SERIALIZATION_KEY) {
        CacheManifestKind::Image
    } else if has_manifest_suffix(file_name, PROCEDURAL_COVER_CACHE_SERIALIZATION_KEY) {
        CacheManifestKind::ProceduralCover
    } else if has_manifest_suffix(file_name, transcodes_key) {
        CacheManifestKind::Transcodes
    } else {
        CacheManifestKind::Incompatible
    }
}

/// What registering the cache directory's files does with an entry.
#[derive(Clone, Copy, Debug, PartialEq, Eq, Structural)]
pub enum CacheEntryAction {
    /// A directory, written by another version: removed.
    RemoveIncompatibleDir,
    /// A manifest, read afterwards.
    Manifest,
    /// A cached asset, removed at the end unless some manifest uses it.
    Asset,
    /// The layout version marker: left alone.
    VersionMarker,
    /// Neither file nor directory: ignored.
    IgnoreUnsupported,
    /// An entry whose type could not be read: skipped.
    Skip,
}

/// What registering the cache directory's files does with an entry, by its
/// kind and name.
pub open spec fn spec_cache_entry_action(kind: EntryKind, file_name: Seq<char>) -> CacheEntryAction {
    match kind {
        EntryKind::Unknown => CacheEntryAction::Skip,
        EntryKind::Dir => CacheEntryAction::RemoveIncompatibleDir,
        EntryKind::File => if ends_with(file_name, ".bincode"@) {
            CacheEntryAction::Manifest
        } else if file_name == CACHE_VERSION_MARKER@ {
            CacheEntryAction::VersionMarker
        } else {
            CacheEntryAction::Asset
        },
        EntryKind::Symlink | EntryKind::Other => CacheEntryAction::IgnoreUnsupported,
    }
}

/// What registering the cache directory's files does with an entry.
pub fn cache_entry_action(kind: EntryKind, file_name: &str) -> (action: CacheEntryAction)
    ensures
        action == spec_cache_entry_action(kind, file_name@),
{
    match kind {
        EntryKind::Unknown => CacheEntryAction::Skip,
        EntryKind::Dir => CacheEntryAction::RemoveIncompatibleDir,
        EntryKind::File => if ends_with_str(file_name, ".bincode") {
            CacheEntryAction::Manifest
        } else if str_equal(file_name, CACHE_VERSION_MARKER) {
            CacheEntryAction::VersionMarker
        } else {
            CacheEntryAction::Asset
        },
        EntryKind::Symlink | EntryKind::Other => CacheEntryAction::IgnoreUnsupported,
    }
}

/// A manifest that the cache writes, named by a hash, its serialization
/// key and `.bincode`, is read back as the kind it holds (for transcodes,
/// where their key's ending is not mistaken for another kind's).
pub proof fn lemma_written_manifests_are_recognized(hash: Seq<char>, transcodes_key: Seq<char>)
    ensures
        spec_manifest_kind(hash + manifest_suffix(ARCHIVES_CACHE_SERIALIZATION_KEY@), transcodes_key)
            == CacheManifestKind::Archives,
        spec_manifest_kind(hash + manifest_suffix(IMAGE_CACHE_SERIALIZATION_KEY@), transcodes_key)
            == CacheManifestKind::Image,
        spec_manifest_kind(hash + manifest_suffix(PROCEDURAL_COVER_CACHE_SERIALIZATION_KEY@), transcodes_key)
            == CacheManifestKind::ProceduralCover,
        ({
            let name = hash + manifest_suffix(transcodes_key);
            &&& !ends_with(name, manifest_suffix(ARCHIVES_CACHE_SERIALIZATION_KEY@))
            &&& !ends_with(name, manifest_suffix(IMAGE_CACHE_SERIALIZATION_KEY@))
            &&& !ends_with(name, manifest_suffix(PROCEDURAL_COVER_CACHE_SERIALIZATION_KEY@))
        }) ==> spec_manifest_kind(hash + manifest_suffix(transcodes_key), transcodes_key)
            == CacheManifestKind::Transcodes,
{
    reveal_strlit(".");
    reveal_strlit(".bincode");
    reveal_strlit("archives1");
    reveal_strlit("image2");
    reveal_strlit("procedural_cover1");
    let archives = manifest_suffix(ARCHIVES_CACHE_SERIALIZATION_KEY@);
    let image = manifest_suffix(IMAGE_CACHE_SERIALIZATION_KEY@);
    let procedural = manifest_suffix(PROCEDURAL_COVER_CACHE_SERIALIZATION_KEY@);
    assert(archives.len() == 18);
    assert(image.len() == 15);
    assert(procedural.len() == 26);
    assert((hash + archives).skip((hash + archives).len() - archives.len()) =~= archives);
    let name = hash + image;
    assert(name.skip(name.len() - image.len()) =~= image);
    if name.len() >= archives.len() {
        assert(name.skip(name.len() - archives.len())[3] == '.');
        assert(archives[3] == 'c');
    }
    let name = hash + procedural;
    assert(name.skip(name.len() - procedural.len()) =~= procedural);
    assert(name.skip(name.len() - archives.len())[0] == 'r');
    assert(archives[0] == '.');
    assert(name.skip(name.len() - image.len())[0] == '_');
    assert(image[0] == '.');
    let tk = manifest_suffix(transcodes_key);
    assert((hash + tk).skip((hash + tk).len() - tk.len()) =~= tk);
}

/// What one cache entry adds to the report of stale data: how many files,
/// and how many bytes.
pub open spec fn sum_counts(parts: Seq<(nat, nat)>) -> nat
    decreases parts.len(),
{
    if parts.len() == 0 {
        0
    } else {
        sum_counts(parts.drop_last()) + parts.last().0
    }
}

pub open spec fn sum_bytes(parts: Seq<(nat, nat)>) -> nat
    decreases parts.len(),
{
    if parts.len() == 0 {
        0
    } else {
        sum_bytes(parts.drop_last()) + parts.last().1
    }
}

/// What each cache entry adds to the report, in the order archives,
/// images, procedural covers, transcodes: a stale procedural cover counts
/// once, with all its versions' sizes.
pub open spec fn stale_report_parts(
    archives: Seq<Vec<Asset>>,
    images: Seq<CachedImage>,
    procedural_covers: Seq<ProceduralCover>,
    transcodes: Seq<Vec<Asset>>,
) -> Seq<(nat, nat)> {
    archives.map_values(|a: Vec<Asset>| (stale_count(a@), stale_bytes(a@))) + images.map_values(
        |i: CachedImage| (stale_image_sizes(i).len(), total_size(stale_image_sizes(i))),
    ) + procedural_covers.map_values(
        |c: ProceduralCover| if c.marked_stale is Some {
            (1nat, c.total_filesize())
        } else {
            (0nat, 0nat)
        },
    ) + transcodes.map_values(|t: Vec<Asset>| (stale_count(t@), stale_bytes(t@)))
}

proof fn lemma_sum_prefix(parts: Seq<(nat, nat)>, n: int)
    requires
        0 <= n <= parts.len(),
    ensures
        sum_counts(parts.take(n)) <= sum_counts(parts),
        sum_bytes(parts.take(n)) <= sum_bytes(parts),
    decreases parts.len() - n,
{
    if n < parts.len() {
        lemma_sum_prefix(parts, n + 1);
        assert(parts.take(n + 1).drop_last() =~= parts.take(n));
    } else {
        assert(parts.take(n) =~= parts);
    }
}

proof fn lemma_sum_step(parts: Seq<(nat, nat)>, n: int)
    requires
        0 <= n < parts.len(),
    ensures
        sum_counts(parts.take(n + 1)) == sum_counts(parts.take(n)) + parts[n].0,
        sum_bytes(parts.take(n + 1)) == sum_bytes(parts.take(n)) + parts[n].1,
        sum_counts(parts.take(n + 1)) <= sum_counts(parts),
        sum_bytes(parts.take(n + 1)) <= sum_bytes(parts),
{
    assert(parts.take(n + 1).drop_last() =~= parts.take(n));
    lemma_sum_prefix(parts, n + 1);
}

/// The number and total size of the stale files of all cache entries, as
/// reported under manual cache optimization.
pub fn report_stale(
    archives: &Vec<Vec<Asset>>,
    images: &Vec<CachedImage>,
    procedural_covers: &Vec<ProceduralCover>,
    transcodes: &Vec<Vec<Asset>>,
) -> (totals: (u32, u64))
    requires
        sum_counts(stale_report_parts(archives@, images@, procedural_covers@, transcodes@)) <= u32::MAX,
        sum_bytes(stale_report_parts(archives@, images@, procedural_covers@, transcodes@)) <= u64::MAX,
    ensures
        totals.0 == sum_counts(stale_report_parts(archives@, images@, procedural_covers@, transcodes@)),
        totals.1 == sum_bytes(stale_report_parts(archives@, images@, procedural_covers@, transcodes@)),
{
    let ghost parts = stale_report_parts(archives@, images@, procedural_covers@, transcodes@);
    let mut num_unused: u32 = 0;
    let mut unused_bytesize: u64 = 0;
    let mut i: usize = 0;
    assert(parts.take(0) =~= Seq::<(nat, nat)>::empty());
    while i < archives.len()
        invariant
            i <= archives@.len(),
            parts == stale_report_parts(archives@, images@, procedural_covers@, transcodes@),
            sum_counts(parts) <= u32::MAX,
            sum_bytes(parts) <= u64::MAX,
            num_unused == sum_counts(parts.take(i as int)),
            unused_bytesize == sum_bytes(parts.take(i as int)),
        decreases archives@.len() - i,
    {
        proof {
            lemma_sum_step(parts, i as int);
        }
        report_stale_archives(&archives[i], &mut num_unused, &mut unused_bytesize);
        i = i + 1;
    }
    let ghost offset = archives@.len();
    let mut j: usize = 0;
    while j < images.len()
        invariant
            j <= images@.len(),
            offset == archives@.len(),
            parts == stale_report_parts(archives@, images@, procedural_covers@, transcodes@),
            sum_counts(parts) <= u32::MAX,
            sum_bytes(parts) <= u64::MAX,
            num_unused == sum_counts(parts.take(offset + j)),
            unused_bytesize == sum_bytes(parts.take(offset + j)),
        decreases images@.len() - j,
    {
        proof {
            lemma_sum_step(parts, offset + j);
        }
        report_stale_images(&images[j], &mut num_unused, &mut unused_bytesize);
        j = j + 1;
    }
    let ghost offset = archives@.len() + images@.len();
    let mut k: usize = 0;
    while k < procedural_covers.len()
        invariant
            k <= procedural_covers@.len(),
            offset == archives@.len() + images@.len(),
            parts == stale_report_parts(archives@, images@, procedural_covers@, transcodes@),
            sum_counts(parts) <= u32::MAX,
            sum_bytes(parts) <= u64::MAX,
            num_unused == sum_counts(parts.take(offset + k)),
            unused_bytesize == sum_bytes(parts.take(offset + k)),
        decreases procedural_covers@.len() - k,
    {
        proof {
            lemma_sum_step(parts, offset + k);
        }
        report_stale_procedural_cover(&procedural_covers[k], &mut num_unused, &mut unused_bytesize);
        k = k + 1;
    }
    let ghost offset = archives@.len() + images@.len() + procedural_covers@.len();
    let mut m: usize = 0;
    while m < transcodes.len()
        invariant
            m <= transcodes@.len(),
            offset == archives@.len() + images@.len() + procedural_covers@.len(),
            parts == stale_report_parts(archives@, images@, procedural_covers@, transcodes@),
            sum_counts(parts) <= u32::MAX,
            sum_bytes(parts) <= u64::MAX,
            num_unused == sum_counts(parts.take(offset + m)),
            unused_bytesize == sum_bytes(parts.take(offset + m)),
        decreases transcodes@.len() - m,
    {
        proof {
            lemma_sum_step(parts, offset + m);
        }
        report_stale_transcodes(&transcodes[m], &mut num_unused, &mut unused_bytesize);
        m = m + 1;
    }
    assert(parts.take(parts.len() as int) =~= parts);
    (num_unused, unused_bytesize)
}

/// The report on stale cache data: how many files are obsolete and how
/// much space removing them reclaims (as written for people), or that
/// none are.
pub open spec fn stale_report_message(num_unused: nat, unused_size: Seq<char>) -> Seq<char> {
    if num_unused > 0 {
        decimal_string(num_unused)
            + " cached assets were identified as obsolete - you can run 'faircamp --optimize-cache' to remove them and reclaim "@
            + unused_size + " of disk space."@
    } else {
        "No cached assets identified as obsolete."@
    }
}

/// The report on stale cache data, with their total size as written for
/// people.
pub fn stale_report(num_unused: u32, unused_size: &str) -> (message: String)
    ensures
        message@ == stale_report_message(num_unused as nat, unused_size@),
{
    if num_unused > 0 {
        let mut message = String::new();
        push_decimal(&mut message, num_unused as u64);
        message.append(
            " cached assets were identified as obsolete - you can run 'faircamp --optimize-cache' to remove them and reclaim ",
        );
        message.append(unused_size);
        message.append(" of disk space.");
        message
    } else {
        String::from_str("No cached assets identified as obsolete.")
    }
}

/// The cached download archives of a release (in each format `F`), found
/// again by a signature of everything they are made from.
#[derive(Clone, Debug)]
pub struct Archives<F> {
    pub formats: Vec<(F, Asset)>,
    pub signature: u64,
}

/// A version with its asset marked stale at `timestamp` (unless it
/// already was).
pub open spec fn version_marked<F>(v: (F, Asset), timestamp: Timestamp) -> (F, Asset) {
    (v.0, Asset { marked_stale: marked_at(v.1.marked_stale, timestamp), ..v.1 })
}

impl<F> Archives<F> {
    /// Marks all archives stale at `timestamp` (those already stale keep
    /// their stamp).
    pub fn mark_all_stale(&mut self, timestamp: &Timestamp)
        ensures
            final(self).signature == old(self).signature,
            final(self).formats@ == old(self).formats@.map_values(|v: (F, Asset)| version_marked(v, *timestamp)),
    {
        let mut rest: Vec<(F, Asset)> = Vec::new();
        std::mem::swap(&mut rest, &mut self.formats);
        let ghost all = rest@;
        let n = rest.len();
        assert(all.len() == n);
        let mut marked: Vec<(F, Asset)> = Vec::new();
        let mut k: usize = 0;
        while rest.len() > 0
            invariant
                k <= all.len(),
                all.len() <= usize::MAX,
                rest@ == all.skip(k as int),
                marked@ == all.take(k as int).map_values(|v: (F, Asset)| version_marked(v, *timestamp)),
            decreases rest@.len(),
        {
            let (format, mut asset) = rest.remove(0);
            proof {
                assert(all.skip(k as int)[0] == all[k as int]);
            }
            asset.mark_stale(timestamp);
            proof {
                assert(rest@ =~= all.skip(k + 1));
                assert(all.take(k + 1) =~= all.take(k as int).push(all[k as int]));
                assert(all.take(k + 1).map_values(|v: (F, Asset)| version_marked(v, *timestamp)) =~= all.take(
                    k as int,
                ).map_values(|v: (F, Asset)| version_marked(v, *timestamp)).push(version_marked(all[k as int], *timestamp)));
            }
            marked.push((format, asset));
            k = k + 1;
        }
        assert(all.take(all.len() as int) =~= all);
        self.formats = marked;
    }

    /// Archives with `signature`, none of them made yet.
    pub fn new(signature: u64) -> (archives: Archives<F>)
        ensures
            archives.formats@.len() == 0,
            archives.signature == signature,
    {
        Archives { formats: Vec::new(), signature }
    }
}

/// The signatures of the cached archives, in order.
pub open spec fn signatures<F>(archives: Seq<Archives<F>>) -> Seq<u64> {
    archives.map_values(|a: Archives<F>| a.signature)
}

/// The first of the signatures that equals `signature`, if any.
pub open spec fn first_with_signature(sigs: Seq<u64>, signature: u64) -> Option<int> {
    if exists|i: int| 0 <= i < sigs.len() && sigs[i] == signature {
        Some(choose|i: int| 0 <= i < sigs.len() && sigs[i] == signature && forall|j: int| 0 <= j < i ==> sigs[j] != signature)
    } else {
        None
    }
}

proof fn lemma_first_with_signature(sigs: Seq<u64>, signature: u64, i: int)
    requires
        0 <= i < sigs.len(),
        sigs[i] == signature,
        forall|j: int| 0 <= j < i ==> sigs[j] != signature,
    ensures
        first_with_signature(sigs, signature) == Some(i),
{
    let k = choose|k: int| 0 <= k < sigs.len() && sigs[k] == signature && forall|j: int| 0 <= j < k ==> sigs[j] != signature;
    if k < i {
        assert(sigs[k] != signature);
    } else if k > i {
        assert(sigs[i] != signature);
    }
}

/// The cache after asking it for the archives with `signature`, and where
/// they stand: the first archives with that signature, else new ones
/// appended.
pub open spec fn spec_get_or_create_archives(sigs: Seq<u64>, signature: u64) -> (Seq<u64>, int) {
    match first_with_signature(sigs, signature) {
        Some(i) => (sigs, i),
        None => (sigs.push(signature), sigs.len() as int),
    }
}

/// Finds the cached archives whose signature identifies all that a
/// release's archives are made from, or else adds new ones (not made
/// yet) for it; where they stand in the cache.
pub fn get_or_create_archives<F>(archives: &mut Vec<Archives<F>>, signature: u64) -> (index: usize)
    requires
        old(archives)@.len() < usize::MAX,
    ensures
        (signatures(final(archives)@), index as int) == spec_get_or_create_archives(signatures(old(archives)@), signature),
        index < final(archives)@.len(),
        final(archives)@.len() == old(archives)@.len() ==> final(archives)@ == old(archives)@,
        final(archives)@.len() != old(archives)@.len() ==> {
            &&& final(archives)@ == old(archives)@.push(final(archives)@[index as int])
            &&& final(archives)@[index as int].formats@.len() == 0
            &&& final(archives)@[index as int].signature == signature
        },
{
    let ghost sigs = signatures(archives@);
    let mut i: usize = 0;
    while i < archives.len()
        invariant
            i <= archives@.len(),
            sigs == signatures(archives@),
            forall|j: int| 0 <= j < i ==> sigs[j] != signature,
        decreases archives@.len() - i,
    {
        if archives[i].signature == signature {
            proof {
                lemma_first_with_signature(sigs, signature, i as int);
            }
            return i;
        }
        i = i + 1;
    }
    proof {
        assert(!(exists|k: int| 0 <= k < sigs.len() && sigs[k] == signature));
    }
    let ghost before = archives@;
    archives.push(Archives::new(signature));
    assert(signatures(archives@) =~= sigs.push(signature));
    archives.len() - 1
}

/// Asking the cache twice for the archives with one signature gives the
/// same archives, and the second time changes nothing.
pub proof fn lemma_get_or_create_archives_idempotent(sigs: Seq<u64>, signature: u64)
    ensures
        ({
            let (after, i) = spec_get_or_create_archives(sigs, signature);
            spec_get_or_create_archives(after, signature) == (after, i)
        }),
{
    match first_with_signature(sigs, signature) {
        Some(i) => {},
        None => {
            let after = sigs.push(signature);
            assert(after[sigs.len() as int] == signature);
            assert forall|j: int| 0 <= j < sigs.len() implies after[j] != signature by {
                assert(after[j] == sigs[j]);
            }
            lemma_first_with_signature(after, signature, sigs.len() as int);
        },
    }
}

/// The first cached procedural cover with `signature`, if any: the one
/// that stands for a cover made from the same generator, tracks and theme.
pub fn find_procedural_cover(procedural_covers: &Vec<ProceduralCover>, signature: u64) -> (found: Option<usize>)
    ensures
        match found {
            Some(i) => first_with_signature(procedural_covers@.map_values(|c: ProceduralCover| c.signature), signature)
                == Some(i as int),
            None => first_with_signature(procedural_covers@.map_values(|c: ProceduralCover| c.signature), signature)
                is None,
        },
{
    let ghost sigs = procedural_covers@.map_values(|c: ProceduralCover| c.signature);
    let mut i: usize = 0;
    while i < procedural_covers.len()
        invariant
            i <= procedural_covers@.len(),
            sigs == procedural_covers@.map_values(|c: ProceduralCover| c.signature),
            forall|j: int| 0 <= j < i ==> sigs[j] != signature,
        decreases procedural_covers@.len() - i,
    {
        if procedural_covers[i].signature == signature {
            proof {
                lemma_first_with_signature(sigs, signature, i as int);
            }
            return Some(i);
        }
        i = i + 1;
    }
    assert(!(exists|k: int| 0 <= k < sigs.len() && sigs[k] == signature));
    None
}

proof fn lemma_marked_views_none_kept(views: Seq<CacheView>, timestamp: Timestamp, build_begin: Timestamp, k: int)
    requires
        0 <= k <= views.len(),
    ensures
        kept_views(
            views.map_values(|v: CacheView| view_marked(v, timestamp)),
            CacheOptimization::Immediate,
            build_begin,
            k,
        ) == Seq::<CacheView>::empty(),
    decreases k,
{
    if k > 0 {
        lemma_marked_views_none_kept(views, timestamp, build_begin, k - 1);
    }
}

/// Under immediate cache optimization, whatever a build marked stale and
/// did not use again is removed by the maintenance that follows: of an
/// image marked all stale, maintenance keeps no view and no version.
pub proof fn lemma_immediate_maintenance_removes_marked_image(
    image: CachedImage,
    timestamp: Timestamp,
    build_begin: Timestamp,
)
    ensures
        kept_views(
            image.views@.map_values(|v: CacheView| view_marked(v, timestamp)),
            CacheOptimization::Immediate,
            build_begin,
            image.views@.len() as int,
        ) == Seq::<CacheView>::empty(),
        !kept(
            match image.background_asset {
                Some(a) => Some(Asset { marked_stale: marked_at(a.marked_stale, timestamp), ..a }),
                None => None,
            },
            |a: Asset| a.marked_stale,
            CacheOptimization::Immediate,
            build_begin,
        ),
        !kept(
            match image.feed_asset {
                Some(a) => Some(FeedImageAsset { marked_stale: marked_at(a.marked_stale, timestamp), ..a }),
                None => None,
            },
            |a: FeedImageAsset| a.marked_stale,
            CacheOptimization::Immediate,
            build_begin,
        ),
        !kept(
            match image.artist_assets {
                Some(a) => Some(ArtistAssets { marked_stale: marked_at(a.marked_stale, timestamp), ..a }),
                None => None,
            },
            |a: ArtistAssets| a.marked_stale,
            CacheOptimization::Immediate,
            build_begin,
        ),
        !kept(
            match image.cover_assets {
                Some(a) => Some(CoverAssets { marked_stale: marked_at(a.marked_stale, timestamp), ..a }),
                None => None,
            },
            |a: CoverAssets| a.marked_stale,
            CacheOptimization::Immediate,
            build_begin,
        ),
{
    lemma_marked_views_none_kept(image.views@, timestamp, build_begin, image.views@.len() as int);
}

} // verus!
