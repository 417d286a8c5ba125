use vstd::prelude::*;

use crate::asset::{mark_stale_at, marked_at, Timestamp};
use crate::opengraph::OpenGraphImage;
use crate::text::{decimal_string, join, lemma_join_push, push_decimal};

verus! {

/// The `src` and `srcset` attributes of an `<img>` tag.
pub struct ImgAttributes {
    pub src: String,
    pub srcset: String,
}

/// A single, resized version of an artist image.
#[derive(Clone, Debug)]
pub struct ArtistAsset {
    /// The filename in the cache; at build time the target filename is used.
    pub filename: String,
    pub filesize_bytes: u64,
    pub format: String,
    pub height: u32,
    pub width: u32,
}

/// Differently sized versions of an artist image (numbers are maximum widths).
#[derive(Clone, Debug)]
pub struct ArtistAssets {
    pub fixed_max_320: ArtistAsset,
    pub fixed_max_480: Option<ArtistAsset>,
    pub fixed_max_640: Option<ArtistAsset>,
    pub fluid_max_640: ArtistAsset,
    pub fluid_max_960: Option<ArtistAsset>,
    pub fluid_max_1280: Option<ArtistAsset>,
    pub marked_stale: Option<Timestamp>,
}

/// A single, resized version of a cover image.
#[derive(Clone, Debug)]
pub struct CoverAsset {
    /// Both height and width (covers are square)
    pub edge_size: u32,
    pub filename: String,
    pub filesize_bytes: u64,
}

/// Differently sized versions of a cover image (numbers are edge sizes).
#[derive(Clone, Debug)]
pub struct CoverAssets {
    pub marked_stale: Option<Timestamp>,
    pub max_160: CoverAsset,
    pub max_320: Option<CoverAsset>,
    pub max_480: Option<CoverAsset>,
    pub max_800: Option<CoverAsset>,
    pub max_1280: Option<CoverAsset>,
}

/// A single, resized version of an image for use in feeds.
#[derive(Clone, Debug)]
pub struct FeedImageAsset {
    /// Both height and width (feed images are square)
    pub edge_size: u32,
    /// The filename in the cache; at build time the target filename is used.
    pub filename: String,
    pub filesize_bytes: u64,
    pub marked_stale: Option<Timestamp>,
}


/// The name under which an artist image version is written at build time,
/// e.g. "image_fixed_480x240.jpg".
pub open spec fn artist_target_filename(asset: ArtistAsset) -> Seq<char> {
    "image_"@ + asset.format@ + "_"@ + decimal_string(asset.width as nat) + "x"@ + decimal_string(
        asset.height as nat,
    ) + ".jpg"@
}

/// The name under which a cover image version is written at build time,
/// e.g. "cover_480.jpg".
pub open spec fn cover_target_filename(asset: CoverAsset) -> Seq<char> {
    "cover_"@ + decimal_string(asset.edge_size as nat) + ".jpg"@
}

/// The url of an image version: prefix, filename and the hash as query.
pub open spec fn image_url(prefix: Seq<char>, filename: Seq<char>, hash: Seq<char>) -> Seq<char> {
    prefix + filename + "?"@ + hash
}

/// One entry of a `srcset`: the url and the width it applies to.
pub open spec fn srcset_entry(prefix: Seq<char>, filename: Seq<char>, hash: Seq<char>, width: nat) -> Seq<
    char,
> {
    image_url(prefix, filename, hash) + " "@ + decimal_string(width) + "w"@
}

/// The `src` of an image made of versions in ascending size: the url of the
/// largest version (empty where there is none).
pub open spec fn artist_src(assets: Seq<ArtistAsset>, prefix: Seq<char>, hash: Seq<char>) -> Seq<char> {
    if assets.len() == 0 {
        Seq::<char>::empty()
    } else {
        image_url(prefix, artist_target_filename(assets.last()), hash)
    }
}

/// The `src` of a cover made of versions in ascending size.
pub open spec fn cover_src(assets: Seq<CoverAsset>, prefix: Seq<char>, hash: Seq<char>) -> Seq<char> {
    if assets.len() == 0 {
        Seq::<char>::empty()
    } else {
        image_url(prefix, cover_target_filename(assets.last()), hash)
    }
}

/// The `srcset` entries of artist image versions.
pub open spec fn artist_srcset_entries(assets: Seq<ArtistAsset>, prefix: Seq<char>, hash: Seq<char>) -> Seq<
    Seq<char>,
> {
    assets.map_values(
        |a: ArtistAsset| srcset_entry(prefix, artist_target_filename(a), hash, a.width as nat),
    )
}

/// The `srcset` entries of cover image versions.
pub open spec fn cover_srcset_entries(assets: Seq<CoverAsset>, prefix: Seq<char>, hash: Seq<char>) -> Seq<
    Seq<char>,
> {
    assets.map_values(
        |a: CoverAsset| srcset_entry(prefix, cover_target_filename(a), hash, a.edge_size as nat),
    )
}


/// Appends `item`, preceded by `sep` unless `out` is the join of nothing.
fn push_joined(out: &mut String, count: usize, item: &str, sep: &str)
    ensures
        count == 0 ==> final(out)@ == old(out)@ + item@,
        count != 0 ==> final(out)@ == old(out)@ + sep@ + item@,
{
    if count != 0 {
        out.append(sep);
    }
    out.append(item);
}

impl ArtistAsset {
    /// The filename under which this version is written at build time.
    pub fn target_filename(&self) -> (filename: String)
        ensures
            filename@ == artist_target_filename(*self),
    {
        let mut s = String::new();
        s.append("image_");
        s.append(self.format.as_str());
        s.append("_");
        push_decimal(&mut s, self.width as u64);
        s.append("x");
        push_decimal(&mut s, self.height as u64);
        s.append(".jpg");
        assert(s@ =~= artist_target_filename(*self));
        s
    }
}

impl CoverAsset {
    /// The filename under which this version is written at build time.
    pub fn target_filename(&self) -> (filename: String)
        ensures
            filename@ == cover_target_filename(*self),
    {
        let mut s = String::new();
        s.append("cover_");
        push_decimal(&mut s, self.edge_size as u64);
        s.append(".jpg");
        assert(s@ =~= cover_target_filename(*self));
        s
    }
}

/// The url of an image version, built from prefix, filename and hash.
pub(crate) fn build_image_url(prefix: &str, filename: &str, hash: &str) -> (url: String)
    ensures
        url@ == image_url(prefix@, filename@, hash@),
{
    let mut s = String::new();
    s.append(prefix);
    s.append(filename);
    s.append("?");
    s.append(hash);
    assert(s@ =~= image_url(prefix@, filename@, hash@));
    s
}

/// One `srcset` entry: the url of an image version and its width.
pub(crate) fn build_srcset_entry(prefix: &str, filename: &str, hash: &str, width: u32) -> (entry: String)
    ensures
        entry@ == srcset_entry(prefix@, filename@, hash@, width as nat),
{
    let mut s = build_image_url(prefix, filename, hash);
    s.append(" ");
    push_decimal(&mut s, width as u64);
    s.append("w");
    assert(s@ =~= srcset_entry(prefix@, filename@, hash@, width as nat));
    s
}

impl ImgAttributes {
    pub fn new(src: String, srcset: String) -> (attributes: ImgAttributes)
        ensures
            attributes.src == src,
            attributes.srcset == srcset,
    {
        ImgAttributes { src, srcset }
    }

    /// Attributes for artist image versions, which must be passed in
    /// ascending size: `srcset` lists every version with its width, `src`
    /// is the url of the largest (empty where no version is passed).
    pub fn new_for_artist(assets_ascending_by_size: Vec<&ArtistAsset>, hash: &str, prefix: &str) -> (attributes:
        ImgAttributes)
        ensures
            ({
                let assets = assets_ascending_by_size@.map_values(|a: &ArtistAsset| *a);
                &&& attributes.srcset@ == join(artist_srcset_entries(assets, prefix@, hash@), ","@)
                &&& attributes.src@ == artist_src(assets, prefix@, hash@)
            }),
    {
        let ghost assets = assets_ascending_by_size@.map_values(|a: &ArtistAsset| *a);
        let mut src = String::new();
        let mut srcset = String::new();
        let n = assets_ascending_by_size.len();
        let mut i: usize = 0;
        while i < n
            invariant
                n == assets.len(),
                assets == assets_ascending_by_size@.map_values(|a: &ArtistAsset| *a),
                i <= n,
                srcset@ == join(artist_srcset_entries(assets.take(i as int), prefix@, hash@), ","@),
                i == 0 ==> src@ == Seq::<char>::empty(),
                i > 0 ==> src@ == image_url(prefix@, artist_target_filename(assets[i - 1]), hash@),
            decreases n - i,
        {
            let asset = assets_ascending_by_size[i];
            let filename = asset.target_filename();
            let entry = build_srcset_entry(prefix, filename.as_str(), hash, asset.width);
            proof {
                let before = artist_srcset_entries(assets.take(i as int), prefix@, hash@);
                assert(artist_srcset_entries(assets.take(i + 1), prefix@, hash@) =~= before.push(entry@));
                lemma_join_push(before, ","@, entry@);
            }
            push_joined(&mut srcset, i, entry.as_str(), ",");
            src = build_image_url(prefix, filename.as_str(), hash);
            i = i + 1;
        }
        assert(assets.take(n as int) =~= assets);
        ImgAttributes { src, srcset }
    }

    /// Attributes for cover image versions, which must be passed in
    /// ascending size: `srcset` lists every version with its edge size, `src`
    /// is the url of the largest (empty where no version is passed).
    pub fn new_for_cover(assets_ascending_by_size: Vec<&CoverAsset>, hash: &str, prefix: &str) -> (attributes:
        ImgAttributes)
        ensures
            ({
                let assets = assets_ascending_by_size@.map_values(|a: &CoverAsset| *a);
                &&& attributes.srcset@ == join(cover_srcset_entries(assets, prefix@, hash@), ","@)
                &&& attributes.src@ == cover_src(assets, prefix@, hash@)
            }),
    {
        let ghost assets = assets_ascending_by_size@.map_values(|a: &CoverAsset| *a);
        let mut src = String::new();
        let mut srcset = String::new();
        let n = assets_ascending_by_size.len();
        let mut i: usize = 0;
        while i < n
            invariant
                n == assets.len(),
                assets == assets_ascending_by_size@.map_values(|a: &CoverAsset| *a),
                i <= n,
                srcset@ == join(cover_srcset_entries(assets.take(i as int), prefix@, hash@), ","@),
                i == 0 ==> src@ == Seq::<char>::empty(),
                i > 0 ==> src@ == image_url(prefix@, cover_target_filename(assets[i - 1]), hash@),
            decreases n - i,
        {
            let asset = assets_ascending_by_size[i];
            let filename = asset.target_filename();
            let entry = build_srcset_entry(prefix, filename.as_str(), hash, asset.edge_size);
            proof {
                let before = cover_srcset_entries(assets.take(i as int), prefix@, hash@);
                assert(cover_srcset_entries(assets.take(i + 1), prefix@, hash@) =~= before.push(entry@));
                lemma_join_push(before, ","@, entry@);
            }
            push_joined(&mut srcset, i, entry.as_str(), ",");
            src = build_image_url(prefix, filename.as_str(), hash);
            i = i + 1;
        }
        assert(assets.take(n as int) =~= assets);
        ImgAttributes { src, srcset }
    }
}


/// A version, if present, as a sequence of zero or one versions.
pub open spec fn optional<T>(o: Option<T>) -> Seq<T> {
    match o {
        Some(x) => seq![x],
        None => seq![],
    }
}

/// The fixed-width artist image versions, in ascending size.
pub open spec fn artist_fixed(a: ArtistAssets) -> Seq<ArtistAsset> {
    seq![a.fixed_max_320] + optional(a.fixed_max_480) + optional(a.fixed_max_640)
}

/// The fluid-width artist image versions, in ascending size.
pub open spec fn artist_fluid(a: ArtistAssets) -> Seq<ArtistAsset> {
    seq![a.fluid_max_640] + optional(a.fluid_max_960) + optional(a.fluid_max_1280)
}

/// All cover versions, in ascending size.
pub open spec fn cover_all(c: CoverAssets) -> Seq<CoverAsset> {
    seq![c.max_160] + optional(c.max_320) + optional(c.max_480) + optional(c.max_800) + optional(
        c.max_1280,
    )
}

/// Pushes the referenced version, if present.
fn push_optional<'a, T>(v: &mut Vec<&'a T>, o: &'a Option<T>)
    ensures
        final(v)@.map_values(|x: &T| *x) == old(v)@.map_values(|x: &T| *x) + optional(*o),
{
    let ghost before = v@.map_values(|x: &T| *x);
    if let Some(x) = o {
        v.push(x);
    }
    assert(v@.map_values(|x: &T| *x) =~= before + optional(*o));
}

impl ArtistAssets {
    /// All versions: fixed ones in ascending size, then fluid ones.
    pub fn all(&self) -> (assets: Vec<&ArtistAsset>)
        ensures
            assets@.map_values(|a: &ArtistAsset| *a) == artist_fixed(*self) + artist_fluid(*self),
    {
        let mut result = self.fixed();
        let mut fluid = self.fluid();
        let ghost a = result@;
        let ghost b = fluid@;
        result.append(&mut fluid);
        assert(result@ =~= a + b);
        assert(result@.map_values(|a: &ArtistAsset| *a) =~= artist_fixed(*self) + artist_fluid(*self));
        result
    }

    fn fixed(&self) -> (assets: Vec<&ArtistAsset>)
        ensures
            assets@.map_values(|a: &ArtistAsset| *a) == artist_fixed(*self),
    {
        let mut assets: Vec<&ArtistAsset> = Vec::new();
        assets.push(&self.fixed_max_320);
        push_optional(&mut assets, &self.fixed_max_480);
        push_optional(&mut assets, &self.fixed_max_640);
        assert(assets@.map_values(|a: &ArtistAsset| *a) =~= artist_fixed(*self));
        assets
    }

    fn fluid(&self) -> (assets: Vec<&ArtistAsset>)
        ensures
            assets@.map_values(|a: &ArtistAsset| *a) == artist_fluid(*self),
    {
        let mut assets: Vec<&ArtistAsset> = Vec::new();
        assets.push(&self.fluid_max_640);
        push_optional(&mut assets, &self.fluid_max_960);
        push_optional(&mut assets, &self.fluid_max_1280);
        assert(assets@.map_values(|a: &ArtistAsset| *a) =~= artist_fluid(*self));
        assets
    }

    /// Image attributes for the fixed-width versions.
    pub fn img_attributes_fixed(&self, hash: &str, prefix: &str) -> (attributes: ImgAttributes)
        ensures
            attributes.srcset@ == join(artist_srcset_entries(artist_fixed(*self), prefix@, hash@), ","@),
            attributes.src@ == artist_src(artist_fixed(*self), prefix@, hash@),
    {
        ImgAttributes::new_for_artist(self.fixed(), hash, prefix)
    }

    /// Image attributes for the fluid-width versions.
    pub fn img_attributes_fluid(&self, hash: &str, prefix: &str) -> (attributes: ImgAttributes)
        ensures
            attributes.srcset@ == join(artist_srcset_entries(artist_fluid(*self), prefix@, hash@), ","@),
            attributes.src@ == artist_src(artist_fluid(*self), prefix@, hash@),
    {
        ImgAttributes::new_for_artist(self.fluid(), hash, prefix)
    }

    /// Whether the versions are currently marked stale.
    pub fn is_stale(&self) -> (stale: bool)
        ensures
            stale == self.marked_stale is Some,
    {
        self.marked_stale.is_some()
    }

    /// Marks the versions stale at `timestamp`, unless they already are.
    pub fn mark_stale(&mut self, timestamp: &Timestamp)
        ensures
            *final(self) == (ArtistAssets {
                marked_stale: marked_at(old(self).marked_stale, *timestamp),
                ..*old(self)
            }),
    {
        mark_stale_at(&mut self.marked_stale, timestamp);
    }

    /// Marks the versions as in use again.
    pub fn unmark_stale(&mut self)
        ensures
            *final(self) == (ArtistAssets { marked_stale: None, ..*old(self) }),
    {
        self.marked_stale = None;
    }

    /// The version best suited for link previews: fluid 960 if present, else
    /// the largest fixed one.
    pub fn opengraph_asset(&self) -> (asset: &ArtistAsset)
        ensures
            *asset == match self.fluid_max_960 {
                Some(a) => a,
                None => match self.fixed_max_640 {
                    Some(a) => a,
                    None => match self.fixed_max_480 {
                        Some(a) => a,
                        None => self.fixed_max_320,
                    },
                },
            },
    {
        if let Some(fluid_max_960) = &self.fluid_max_960 {
            fluid_max_960
        } else if let Some(fixed_max_640) = &self.fixed_max_640 {
            fixed_max_640
        } else if let Some(fixed_max_480) = &self.fixed_max_480 {
            fixed_max_480
        } else {
            &self.fixed_max_320
        }
    }

    /// The link preview image of an artist: the version best suited for it
    /// (see `opengraph_asset`), at `url_prefix` with the image's hash as
    /// query.
    pub fn opengraph_image(&self, hash: &str, url_prefix: &str) -> (image: OpenGraphImage)
        ensures
            ({
                let a = match self.fluid_max_960 {
                    Some(a) => a,
                    None => match self.fixed_max_640 {
                        Some(a) => a,
                        None => match self.fixed_max_480 {
                            Some(a) => a,
                            None => self.fixed_max_320,
                        },
                    },
                };
                &&& image.url@ == image_url(url_prefix@, artist_target_filename(a), hash@)
                &&& image.height == a.height
                &&& image.width == a.width
            }),
    {
        let asset = self.opengraph_asset();
        let filename = asset.target_filename();
        OpenGraphImage {
            height: asset.height,
            url: build_image_url(url_prefix, filename.as_str(), hash),
            width: asset.width,
        }
    }

    /// The filename of the smallest fixed version, with the image's hash as
    /// query: an artist's thumbnail.
    pub fn thumbnail_image_src(&self, hash: &str) -> (src: String)
        ensures
            src@ == artist_target_filename(self.fixed_max_320) + "?"@ + hash@,
    {
        let mut src = self.fixed_max_320.target_filename();
        src.append("?");
        src.append(hash);
        src
    }

    /// The filename of the version best suited for M3U playlists: fixed 480
    /// if present, else fixed 320.
    pub fn playlist_image(&self) -> (filename: String)
        ensures
            filename@ == artist_target_filename(
                match self.fixed_max_480 {
                    Some(a) => a,
                    None => self.fixed_max_320,
                },
            ),
    {
        let artist_asset = match &self.fixed_max_480 {
            Some(fixed_max_480) => fixed_max_480,
            None => &self.fixed_max_320,
        };
        artist_asset.target_filename()
    }
}

impl CoverAssets {
    /// All versions, in ascending size.
    pub fn all(&self) -> (assets: Vec<&CoverAsset>)
        ensures
            assets@.map_values(|a: &CoverAsset| *a) == cover_all(*self),
    {
        let mut result: Vec<&CoverAsset> = Vec::new();
        result.push(&self.max_160);
        push_optional(&mut result, &self.max_320);
        push_optional(&mut result, &self.max_480);
        push_optional(&mut result, &self.max_800);
        push_optional(&mut result, &self.max_1280);
        assert(result@.map_values(|a: &CoverAsset| *a) =~= cover_all(*self));
        result
    }

    /// Image attributes for the versions up to 320 pixels.
    pub fn img_attributes_up_to_320(&self, hash: &str, prefix: &str) -> (attributes: ImgAttributes)
        ensures
            ({
                let assets = seq![self.max_160] + optional(self.max_320);
                &&& attributes.srcset@ == join(cover_srcset_entries(assets, prefix@, hash@), ","@)
                &&& attributes.src@ == cover_src(assets, prefix@, hash@)
            }),
    {
        let mut assets: Vec<&CoverAsset> = Vec::new();
        assets.push(&self.max_160);
        push_optional(&mut assets, &self.max_320);
        assert(assets@.map_values(|a: &CoverAsset| *a) =~= seq![self.max_160] + optional(self.max_320));
        ImgAttributes::new_for_cover(assets, hash, prefix)
    }

    /// Image attributes for the versions up to 480 pixels (the 480 version
    /// is only used where the 320 version is present too).
    pub fn img_attributes_up_to_480(&self, hash: &str, prefix: &str) -> (attributes: ImgAttributes)
        ensures
            ({
                let assets = match self.max_320 {
                    Some(a) => seq![self.max_160, a] + optional(self.max_480),
                    None => seq![self.max_160],
                };
                &&& attributes.srcset@ == join(cover_srcset_entries(assets, prefix@, hash@), ","@)
                &&& attributes.src@ == cover_src(assets, prefix@, hash@)
            }),
    {
        let mut assets: Vec<&CoverAsset> = Vec::new();
        assets.push(&self.max_160);
        if let Some(max_320) = &self.max_320 {
            assets.push(max_320);
            push_optional(&mut assets, &self.max_480);
        }
        assert(assets@.map_values(|a: &CoverAsset| *a) =~= match self.max_320 {
            Some(a) => seq![self.max_160, a] + optional(self.max_480),
            None => seq![self.max_160],
        });
        ImgAttributes::new_for_cover(assets, hash, prefix)
    }

    /// Image attributes for all versions.
    pub fn img_attributes_up_to_1280(&self, hash: &str, prefix: &str) -> (attributes: ImgAttributes)
        ensures
            attributes.srcset@ == join(cover_srcset_entries(cover_all(*self), prefix@, hash@), ","@),
            attributes.src@ == cover_src(cover_all(*self), prefix@, hash@),
    {
        ImgAttributes::new_for_cover(self.all(), hash, prefix)
    }

    /// Whether the versions are currently marked stale.
    pub fn is_stale(&self) -> (stale: bool)
        ensures
            stale == self.marked_stale is Some,
    {
        self.marked_stale.is_some()
    }

    /// The largest version.
    pub fn largest(&self) -> (asset: &CoverAsset)
        ensures
            *asset == cover_all(*self).last(),
    {
        let ghost all = cover_all(*self);
        if let Some(max_1280) = &self.max_1280 {
            max_1280
        } else if let Some(max_800) = &self.max_800 {
            max_800
        } else if let Some(max_480) = &self.max_480 {
            max_480
        } else if let Some(max_320) = &self.max_320 {
            max_320
        } else {
            &self.max_160
        }
    }

    /// Marks the versions stale at `timestamp`, unless they already are.
    pub fn mark_stale(&mut self, timestamp: &Timestamp)
        ensures
            *final(self) == (CoverAssets {
                marked_stale: marked_at(old(self).marked_stale, *timestamp),
                ..*old(self)
            }),
    {
        mark_stale_at(&mut self.marked_stale, timestamp);
    }

    /// The version best suited for link previews: the largest up to 800.
    pub fn opengraph_asset(&self) -> (asset: &CoverAsset)
        ensures
            *asset == match self.max_800 {
                Some(a) => a,
                None => match self.max_480 {
                    Some(a) => a,
                    None => match self.max_320 {
                        Some(a) => a,
                        None => self.max_160,
                    },
                },
            },
    {
        if let Some(max_800) = &self.max_800 {
            max_800
        } else if let Some(max_480) = &self.max_480 {
            max_480
        } else if let Some(max_320) = &self.max_320 {
            max_320
        } else {
            &self.max_160
        }
    }

    /// The link preview image of a cover: the version best suited for it
    /// (see `opengraph_asset`), at `url_prefix` with the image's hash as
    /// query.
    pub fn opengraph_image(&self, hash: &str, url_prefix: &str) -> (image: OpenGraphImage)
        ensures
            ({
                let a = match self.max_800 {
                    Some(a) => a,
                    None => match self.max_480 {
                        Some(a) => a,
                        None => match self.max_320 {
                            Some(a) => a,
                            None => self.max_160,
                        },
                    },
                };
                &&& image.url@ == image_url(url_prefix@, cover_target_filename(a), hash@)
                &&& image.height == a.edge_size
                &&& image.width == a.edge_size
            }),
    {
        let asset = self.opengraph_asset();
        let filename = asset.target_filename();
        OpenGraphImage {
            height: asset.edge_size,
            url: build_image_url(url_prefix, filename.as_str(), hash),
            width: asset.edge_size,
        }
    }

    /// The filename of the smallest version (up to 160 pixels), with the
    /// image's hash as query.
    pub fn filename_160(&self, hash: &str) -> (filename: String)
        ensures
            filename@ == cover_target_filename(self.max_160) + "?"@ + hash@,
    {
        let mut filename = self.max_160.target_filename();
        filename.append("?");
        filename.append(hash);
        filename
    }

    /// The filename of the version best suited for M3U playlists: the
    /// largest up to 480.
    pub fn playlist_image(&self) -> (filename: String)
        ensures
            filename@ == cover_target_filename(
                match self.max_480 {
                    Some(a) => a,
                    None => match self.max_320 {
                        Some(a) => a,
                        None => self.max_160,
                    },
                },
            ),
    {
        let cover_asset = match &self.max_480 {
            Some(max_480) => max_480,
            None => match &self.max_320 {
                Some(max_320) => max_320,
                None => &self.max_160,
            },
        };
        cover_asset.target_filename()
    }

    /// Marks the versions as in use again.
    pub fn unmark_stale(&mut self)
        ensures
            *final(self) == (CoverAssets { marked_stale: None, ..*old(self) }),
    {
        self.marked_stale = None;
    }
}

impl FeedImageAsset {
    /// The filename under which the feed image is written at build time.
    pub fn target_filename() -> (filename: &'static str)
        ensures
            filename@ == "feed.jpg"@,
    {
        "feed.jpg"
    }

    /// A feed image version of the given edge size and file size, not stale.
    pub fn new(edge_size: u32, filename: String, filesize_bytes: u64) -> (asset: FeedImageAsset)
        ensures
            asset == (FeedImageAsset { edge_size, filename, filesize_bytes, marked_stale: None }),
    {
        FeedImageAsset { edge_size, filename, filesize_bytes, marked_stale: None }
    }

    /// Whether the version is currently marked stale.
    pub fn is_stale(&self) -> (stale: bool)
        ensures
            stale == self.marked_stale is Some,
    {
        self.marked_stale.is_some()
    }

    /// Marks the version stale at `timestamp`, unless it already is.
    pub fn mark_stale(&mut self, timestamp: &Timestamp)
        ensures
            *final(self) == (FeedImageAsset {
                marked_stale: marked_at(old(self).marked_stale, *timestamp),
                ..*old(self)
            }),
    {
        mark_stale_at(&mut self.marked_stale, timestamp);
    }

    /// Marks the version as in use again.
    pub fn unmark_stale(&mut self)
        ensures
            *final(self) == (FeedImageAsset { marked_stale: None, ..*old(self) }),
    {
        self.marked_stale = None;
    }
}

} // verus!
