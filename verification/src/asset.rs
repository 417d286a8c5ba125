use vstd::prelude::*;

verus! {

/// A point in time, in microseconds since the Unix epoch (UTC), used to
/// stamp when something was found unused.
#[derive(Clone, Copy, Debug, PartialEq, Eq, Structural)]
pub struct Timestamp {
    pub micros: i64,
}

/// A generated file in the cache, with its size, and the time at which it
/// was found unused (if it currently is).
#[derive(Clone, Debug)]
pub struct Asset {
    pub filename: String,
    pub filesize_bytes: u64,
    pub marked_stale: Option<Timestamp>,
}

/// Whether an asset is delivered as part of the site or only used as an
/// intermediate step of a build.
#[derive(Clone, Copy, Debug, PartialEq, Eq, Structural)]
pub enum AssetIntent {
    Deliverable,
    Intermediate,
}

/// The staleness stamp after marking stale at `timestamp`: an existing stamp
/// is kept, otherwise `timestamp` is recorded.
pub open spec fn marked_at(stamp: Option<Timestamp>, timestamp: Timestamp) -> Option<Timestamp> {
    match stamp {
        Some(earlier) => Some(earlier),
        None => Some(timestamp),
    }
}

/// Records `timestamp` in `stamp` unless a stamp is already there.
pub fn mark_stale_at(stamp: &mut Option<Timestamp>, timestamp: &Timestamp)
    ensures
        *final(stamp) == marked_at(*old(stamp), *timestamp),
{
    if stamp.is_none() {
        *stamp = Some(*timestamp);
    }
}

impl Asset {
    /// An asset of the given size; an intermediate asset starts out stale
    /// (stamped with the beginning of the build), a deliverable one does not.
    pub fn new(
        filename: String,
        filesize_bytes: u64,
        intent: AssetIntent,
        build_begin: &Timestamp,
    ) -> (asset: Asset)
        ensures
            asset.filename == filename,
            asset.filesize_bytes == filesize_bytes,
            asset.marked_stale == (match intent {
                AssetIntent::Deliverable => None,
                AssetIntent::Intermediate => Some(*build_begin),
            }),
    {
        Asset {
            filename,
            filesize_bytes,
            marked_stale: match intent {
                AssetIntent::Deliverable => None,
                AssetIntent::Intermediate => Some(*build_begin),
            },
        }
    }

    /// Marks the asset stale at `timestamp`, unless it already is.
    pub fn mark_stale(&mut self, timestamp: &Timestamp)
        ensures
            final(self).marked_stale == marked_at(old(self).marked_stale, *timestamp),
            final(self).filename == old(self).filename,
            final(self).filesize_bytes == old(self).filesize_bytes,
    {
        mark_stale_at(&mut self.marked_stale, timestamp);
    }

    /// Whether the asset is currently marked stale.
    pub fn is_stale(&self) -> (stale: bool)
        ensures
            stale == self.marked_stale is Some,
    {
        self.marked_stale.is_some()
    }

    /// Marks the asset as in use again.
    pub fn unmark_stale(&mut self)
        ensures
            final(self).marked_stale is None,
            final(self).filename == old(self).filename,
            final(self).filesize_bytes == old(self).filesize_bytes,
    {
        self.marked_stale = None;
    }
}


/// Marking stale keeps the first stamp: marking again later changes nothing,
/// so the time since which something has been unused is never reset by
/// marking.
pub proof fn lemma_mark_stale_keeps_first_stamp(
    stamp: Option<Timestamp>,
    first: Timestamp,
    second: Timestamp,
)
    ensures
        marked_at(marked_at(stamp, first), second) == marked_at(stamp, first),
        marked_at(stamp, first) is Some,
        stamp is Some ==> marked_at(stamp, first) == stamp,
{
}

} // verus!
