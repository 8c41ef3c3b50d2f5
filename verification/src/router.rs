//! Which storage tier answers for a tile.

use vstd::prelude::*;

verus! {

/// The highest zoom level that is kept on disk; the band starts at zoom 0.
pub const LOW_ZOOM_MAX: u32 = 8;

/// The tiers that a request may consult, in order.
#[derive(Clone, Copy, Debug, PartialEq, Eq, Structural)]
pub enum TierPlan {
    /// Only the files on disk. A missing file ends the request.
    DiskOnly,
    /// The memory cache, and on a miss the upstream source.
    MemoryThenUpstream,
}

/// Whether `zoom` lies in the band of zoom levels that are kept on disk.
pub open spec fn in_low_zoom_band(zoom: u32) -> bool {
    zoom <= LOW_ZOOM_MAX
}

/// The plan for a tile at `zoom`: disk only where the disk tier is enabled and
/// the zoom is in its band, memory and upstream otherwise.
pub open spec fn tier_plan(zoom: u32, disk_enabled: bool) -> TierPlan {
    if disk_enabled && in_low_zoom_band(zoom) {
        TierPlan::DiskOnly
    } else {
        TierPlan::MemoryThenUpstream
    }
}

/// Whether a tile fetched from upstream goes into the memory cache: always,
/// but for tiles that the disk tier is responsible for.
pub open spec fn populates_memory(zoom: u32, disk_enabled: bool) -> bool {
    !disk_enabled || !in_low_zoom_band(zoom)
}

/// Picks the tiers for a tile at `zoom`.
pub fn route(zoom: u32, disk_enabled: bool) -> (plan: TierPlan)
    ensures
        plan == tier_plan(zoom, disk_enabled),
{
    if disk_enabled && zoom <= LOW_ZOOM_MAX {
        TierPlan::DiskOnly
    } else {
        TierPlan::MemoryThenUpstream
    }
}

/// Decides whether a fetched tile at `zoom` is stored in the memory cache.
pub fn should_populate(zoom: u32, disk_enabled: bool) -> (populate: bool)
    ensures
        populate == populates_memory(zoom, disk_enabled),
{
    !disk_enabled || zoom > LOW_ZOOM_MAX
}

/// The two decisions agree: a tile is stored in memory exactly when its plan
/// is the memory tier, so nothing is cached twice.
pub proof fn lemma_memory_plan_populates(zoom: u32, disk_enabled: bool)
    ensures
        populates_memory(zoom, disk_enabled) <==> tier_plan(zoom, disk_enabled)
            == TierPlan::MemoryThenUpstream,
{
}

} // verus!
