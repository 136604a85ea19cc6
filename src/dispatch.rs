//! Sizing of the compute dispatch that advances the simulation grid.
use vstd::prelude::*;

verus! {

/// Edge length, in cells, of the square tile that one compute workgroup covers.
pub const WORKGROUP_SIZE: u32 = 16;

/// The number of tiles of `WORKGROUP_SIZE` cells needed to cover `cells` cells.
pub open spec fn groups_for(cells: int) -> int {
    (cells + WORKGROUP_SIZE - 1) / (WORKGROUP_SIZE as int)
}

/// The workgroup counts of one compute dispatch.
#[derive(Clone, Copy, Debug, PartialEq, Eq, Structural)]
pub struct WorkgroupCount {
    pub x: u32,
    pub y: u32,
    pub z: u32,
}

/// Returns the number of 16-cell tiles needed to cover `cells` cells along one axis,
/// that is `cells / 16` rounded up.
pub fn workgroups_for(cells: u32) -> (r: u32)
    ensures
        r == groups_for(cells as int),
{
    let whole = cells / WORKGROUP_SIZE;
    if cells % WORKGROUP_SIZE == 0 {
        whole
    } else {
        whole + 1
    }
}

/// Returns the dispatch that covers a `width` by `height` grid with 16×16×1 workgroups.
pub fn dispatch_for(width: u32, height: u32) -> (r: WorkgroupCount)
    ensures
        r.x == groups_for(width as int),
        r.y == groups_for(height as int),
        r.z == 1,
{
    WorkgroupCount { x: workgroups_for(width), y: workgroups_for(height), z: 1 }
}

/// Every cell of a dimension lies in one of the dispatched tiles, and the last tile starts
/// inside the dimension: the dispatch covers the axis with no wholly idle tile.
pub proof fn lemma_groups_cover(cells: int)
    requires
        cells >= 0,
    ensures
        groups_for(cells) * (WORKGROUP_SIZE as int) >= cells,
        cells == 0 || (groups_for(cells) - 1) * (WORKGROUP_SIZE as int) < cells,
{
}

} // verus!
