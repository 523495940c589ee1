//! Playlists kept on disk between runs: whole, or as far as they were read.

use vstd::prelude::*;

use crate::models::PlaylistItem;

verus! {

/// A playlist's items on disk, valid for exactly one snapshot.
#[derive(Debug)]
pub struct CachedPlaylist {
    pub snapshot: String,
    pub items: Vec<PlaylistItem>,
    /// Absent in the first format, which kept whole playlists only.
    pub total: Option<u32>,
    /// A value means this is a prefix. Absent means the cache is complete.
    pub next_offset: Option<u32>,
}

/// A playlist's items as the interface takes them from the cache.
#[derive(Debug)]
pub struct PlaylistCache {
    pub snapshot: String,
    pub items: Vec<PlaylistItem>,
    pub total: u32,
    pub next_offset: Option<u32>,
}

impl CachedPlaylist {
    /// How many items the playlist has: what was written down, or as many as
    /// are here, as far as that can be counted.
    pub open spec fn spec_total(self) -> u32 {
        match self.total {
            Some(total) => total,
            None => if self.items@.len() <= u32::MAX {
                self.items@.len() as u32
            } else {
                u32::MAX
            },
        }
    }

    /// Whether the numbers fit together: no more items than the total, and
    /// nothing to read on from beyond it.
    pub open spec fn consistent(self) -> bool {
        &&& self.items@.len() <= self.spec_total()
        &&& match self.next_offset {
            Some(offset) => offset <= self.spec_total(),
            None => true,
        }
    }

    /// The cache as the interface takes it; nothing where its numbers do not
    /// fit together.
    pub fn restored(self) -> (cache: Option<PlaylistCache>)
        ensures
            cache == if self.consistent() {
                Some(
                    PlaylistCache {
                        snapshot: self.snapshot,
                        items: self.items,
                        total: self.spec_total(),
                        next_offset: self.next_offset,
                    },
                )
            } else {
                None
            },
    {
        let count: usize = self.items.len();
        let total: u32 = match self.total {
            Some(total) => total,
            None => if count <= u32::MAX as usize {
                count as u32
            } else {
                u32::MAX
            },
        };
        let overrun = match self.next_offset {
            Some(offset) => offset > total,
            None => false,
        };
        if count > total as usize || overrun {
            return None;
        }
        Some(
            PlaylistCache {
                snapshot: self.snapshot,
                items: self.items,
                total,
                next_offset: self.next_offset,
            },
        )
    }
}

/// What is written to disk for a playlist that was read as far as
/// `next_offset`.
pub fn checkpoint(
    snapshot: String,
    items: Vec<PlaylistItem>,
    total: u32,
    next_offset: Option<u32>,
) -> (cached: CachedPlaylist)
    ensures
        cached == (CachedPlaylist { snapshot, items, total: Some(total), next_offset }),
{
    CachedPlaylist { snapshot, items, total: Some(total), next_offset }
}

}
