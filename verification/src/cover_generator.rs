use vstd::prelude::*;

use crate::asset::{mark_stale_at, marked_at, Timestamp};
use crate::image::{build_image_url, build_srcset_entry, image_url, srcset_entry, ImgAttributes};
use crate::text::str_equal;

verus! {

/// The styles in which a cover can be generated procedurally for a release
/// without a cover image.
#[derive(Clone, Copy, Debug, PartialEq, Eq, Structural)]
pub enum CoverGenerator {
    BestRillen,
    Blocks,
    GlassSplinters,
    LooneyTunes,
    ScratchyFaintRillen,
    SpaceTimeRupture,
}

/// A single, resized version of a procedural cover image.
#[derive(Clone, Debug)]
pub struct ProceduralCoverAsset {
    pub filename: String,
    pub filesize_bytes: u64,
}

/// A procedurally generated cover in four sizes.
#[derive(Clone, Debug)]
pub struct ProceduralCover {
    pub asset_120: ProceduralCoverAsset,
    pub asset_240: ProceduralCoverAsset,
    pub asset_480: ProceduralCoverAsset,
    pub asset_720: ProceduralCoverAsset,
    pub marked_stale: Option<Timestamp>,
    /// A hash of everything that the generation depends on.
    pub signature: u64,
}

/// The filenames under which the four sizes of a procedural cover are
/// written.
pub const PROCEDURAL_COVER_FILENAME_120: &'static str = "cover_120.png";

pub const PROCEDURAL_COVER_FILENAME_240: &'static str = "cover_240.png";

pub const PROCEDURAL_COVER_FILENAME_480: &'static str = "cover_480.png";

pub const PROCEDURAL_COVER_FILENAME_720: &'static str = "cover_720.png";

impl ProceduralCover {
    /// The filename of the 120 pixel version, with the cover's hash (its
    /// signature, URL-safe) as query so that browsers fetch it anew when it
    /// changes.
    pub fn filename_120(&self, hash: &str) -> (filename: String)
        ensures
            filename@ == PROCEDURAL_COVER_FILENAME_120@ + "?"@ + hash@,
    {
        let mut filename = String::from_str(PROCEDURAL_COVER_FILENAME_120);
        filename.append("?");
        filename.append(hash);
        filename
    }

    /// The filename of the 480 pixel version, with the cover's hash as query.
    pub fn filename_480(&self, hash: &str) -> (filename: String)
        ensures
            filename@ == PROCEDURAL_COVER_FILENAME_480@ + "?"@ + hash@,
    {
        let mut filename = String::from_str(PROCEDURAL_COVER_FILENAME_480);
        filename.append("?");
        filename.append(hash);
        filename
    }

    /// The filename of the 720 pixel version, with the cover's hash as query.
    pub fn filename_720(&self, hash: &str) -> (filename: String)
        ensures
            filename@ == PROCEDURAL_COVER_FILENAME_720@ + "?"@ + hash@,
    {
        let mut filename = String::from_str(PROCEDURAL_COVER_FILENAME_720);
        filename.append("?");
        filename.append(hash);
        filename
    }

    /// The `src` (the largest version) and `srcset` (all four versions)
    /// attributes for showing the cover in an `<img>` tag.
    pub fn img_attributes_all_sizes(&self, hash: &str, prefix: &str) -> (attributes: ImgAttributes)
        ensures
            attributes.src@ == image_url(prefix@, PROCEDURAL_COVER_FILENAME_720@, hash@),
            attributes.srcset@ == srcset_entry(prefix@, PROCEDURAL_COVER_FILENAME_120@, hash@, 120) + ","@
                + srcset_entry(prefix@, PROCEDURAL_COVER_FILENAME_240@, hash@, 240) + ","@
                + srcset_entry(prefix@, PROCEDURAL_COVER_FILENAME_480@, hash@, 480) + ","@
                + srcset_entry(prefix@, PROCEDURAL_COVER_FILENAME_720@, hash@, 720),
    {
        let mut srcset = build_srcset_entry(prefix, PROCEDURAL_COVER_FILENAME_120, hash, 120);
        srcset.append(",");
        let entry = build_srcset_entry(prefix, PROCEDURAL_COVER_FILENAME_240, hash, 240);
        srcset.append(entry.as_str());
        srcset.append(",");
        let entry = build_srcset_entry(prefix, PROCEDURAL_COVER_FILENAME_480, hash, 480);
        srcset.append(entry.as_str());
        srcset.append(",");
        let entry = build_srcset_entry(prefix, PROCEDURAL_COVER_FILENAME_720, hash, 720);
        srcset.append(entry.as_str());
        ImgAttributes::new(build_image_url(prefix, PROCEDURAL_COVER_FILENAME_720, hash), srcset)
    }

    /// The size of all four variants together.
    pub open spec fn total_filesize(&self) -> nat {
        (self.asset_120.filesize_bytes + self.asset_240.filesize_bytes + self.asset_480.filesize_bytes
            + self.asset_720.filesize_bytes) as nat
    }

    /// Whether the cover is currently marked stale.
    pub fn is_stale(&self) -> (stale: bool)
        ensures
            stale == self.marked_stale is Some,
    {
        self.marked_stale.is_some()
    }

    /// Marks the cover stale at `timestamp`, unless it already is.
    pub fn mark_stale(&mut self, timestamp: &Timestamp)
        ensures
            final(self).marked_stale == marked_at(old(self).marked_stale, *timestamp),
            final(self).signature == old(self).signature,
    {
        mark_stale_at(&mut self.marked_stale, timestamp);
    }

    /// Marks the cover as in use again.
    pub fn unmark_stale(&mut self)
        ensures
            final(self).marked_stale is None,
            final(self).signature == old(self).signature,
    {
        self.marked_stale = None;
    }
}

/// The key by which a manifest selects a generator.
pub open spec fn manifest_key(generator: CoverGenerator) -> Seq<char> {
    match generator {
        CoverGenerator::BestRillen => "best_rillen"@,
        CoverGenerator::Blocks => "blocks"@,
        CoverGenerator::GlassSplinters => "glass_splinters"@,
        CoverGenerator::LooneyTunes => "looney_tunes"@,
        CoverGenerator::ScratchyFaintRillen => "scratchy_faint_rillen"@,
        CoverGenerator::SpaceTimeRupture => "space_time_rupture"@,
    }
}

/// The generator that a manifest key selects, if any.
pub open spec fn spec_from_manifest_key(key: Seq<char>) -> Option<CoverGenerator> {
    if key == "best_rillen"@ {
        Some(CoverGenerator::BestRillen)
    } else if key == "blocks"@ {
        Some(CoverGenerator::Blocks)
    } else if key == "glass_splinters"@ {
        Some(CoverGenerator::GlassSplinters)
    } else if key == "looney_tunes"@ {
        Some(CoverGenerator::LooneyTunes)
    } else if key == "scratchy_faint_rillen"@ {
        Some(CoverGenerator::ScratchyFaintRillen)
    } else if key == "space_time_rupture"@ {
        Some(CoverGenerator::SpaceTimeRupture)
    } else {
        None
    }
}

/// The display name of a generator.
pub open spec fn spec_name(generator: CoverGenerator) -> Seq<char> {
    match generator {
        CoverGenerator::BestRillen => "Beste Rillen"@,
        CoverGenerator::Blocks => "Blocks"@,
        CoverGenerator::GlassSplinters => "Glass Splinters"@,
        CoverGenerator::LooneyTunes => "Looney Tunes"@,
        CoverGenerator::ScratchyFaintRillen => "Scratchy Faint Rillen"@,
        CoverGenerator::SpaceTimeRupture => "Space Time Rupture"@,
    }
}

impl CoverGenerator {
    /// The manifest keys of all generators.
    pub fn all_generators() -> (keys: Vec<&'static str>)
        ensures
            keys@.len() == 6,
            keys@[0]@ == "best_rillen"@,
            keys@[1]@ == "blocks"@,
            keys@[2]@ == "glass_splinters"@,
            keys@[3]@ == "looney_tunes"@,
            keys@[4]@ == "scratchy_faint_rillen"@,
            keys@[5]@ == "space_time_rupture"@,
    {
        vec![
            "best_rillen",
            "blocks",
            "glass_splinters",
            "looney_tunes",
            "scratchy_faint_rillen",
            "space_time_rupture",
        ]
    }

    /// The generator selected by a manifest key, or `None` for an unknown key.
    pub fn from_manifest_key(key: &str) -> (generator: Option<CoverGenerator>)
        ensures
            generator == spec_from_manifest_key(key@),
    {
        if str_equal(key, "best_rillen") {
            Some(CoverGenerator::BestRillen)
        } else if str_equal(key, "blocks") {
            Some(CoverGenerator::Blocks)
        } else if str_equal(key, "glass_splinters") {
            Some(CoverGenerator::GlassSplinters)
        } else if str_equal(key, "looney_tunes") {
            Some(CoverGenerator::LooneyTunes)
        } else if str_equal(key, "scratchy_faint_rillen") {
            Some(CoverGenerator::ScratchyFaintRillen)
        } else if str_equal(key, "space_time_rupture") {
            Some(CoverGenerator::SpaceTimeRupture)
        } else {
            None
        }
    }

    /// The display name of this generator.
    pub fn name(&self) -> (name: &'static str)
        ensures
            name@ == spec_name(*self),
    {
        match self {
            CoverGenerator::BestRillen => "Beste Rillen",
            CoverGenerator::Blocks => "Blocks",
            CoverGenerator::GlassSplinters => "Glass Splinters",
            CoverGenerator::LooneyTunes => "Looney Tunes",
            CoverGenerator::ScratchyFaintRillen => "Scratchy Faint Rillen",
            CoverGenerator::SpaceTimeRupture => "Space Time Rupture",
        }
    }
}

/// Every generator is selected by its own manifest key: reading back the key
/// of a generator gives that generator.
pub proof fn lemma_manifest_key_round_trip(generator: CoverGenerator)
    ensures
        spec_from_manifest_key(manifest_key(generator)) == Some(generator),
{
    reveal_strlit("best_rillen");
    reveal_strlit("blocks");
    reveal_strlit("glass_splinters");
    reveal_strlit("looney_tunes");
    reveal_strlit("scratchy_faint_rillen");
    reveal_strlit("space_time_rupture");
    // The keys all differ in length.
    assert("best_rillen"@.len() == 11);
    assert("blocks"@.len() == 6);
    assert("glass_splinters"@.len() == 15);
    assert("looney_tunes"@.len() == 12);
    assert("scratchy_faint_rillen"@.len() == 21);
    assert("space_time_rupture"@.len() == 18);
}

} // verus!
