//! Ping-pong bookkeeping of the two simulation grids and the bind groups that expose them.
use vstd::prelude::*;

use crate::dispatch::{dispatch_for, groups_for, WorkgroupCount};

verus! {

/// One of the two equally sized simulation grids.
#[derive(Clone, Copy, Debug, PartialEq, Eq, Structural)]
pub enum Grid {
    A,
    B,
}

impl Grid {
    /// The grid that is not `self`.
    pub open spec fn spec_other(self) -> Grid {
        match self {
            Grid::A => Grid::B,
            Grid::B => Grid::A,
        }
    }

    /// Returns the grid that is not `self`.
    pub fn other(self) -> (r: Grid)
        ensures
            r == self.spec_other(),
    {
        match self {
            Grid::A => Grid::B,
            Grid::B => Grid::A,
        }
    }
}

/// The grid that is read after `ticks` steps: `A` on even counts, `B` on odd ones.
pub open spec fn role_of(ticks: nat) -> Grid {
    if ticks % 2 == 0 {
        Grid::A
    } else {
        Grid::B
    }
}

/// The grid that is read after flipping the roles `ticks` times, one step at a time,
/// starting from `A`.
pub open spec fn role_after(ticks: nat) -> Grid
    decreases ticks,
{
    if ticks == 0 {
        Grid::A
    } else {
        role_after((ticks - 1) as nat).spec_other()
    }
}

/// Number of fractional steps in one unit of physical length: lengths are given in
/// thousandths.
pub const LENGTH_SCALE: u64 = 1000;

/// Cells along each axis of a grid spanning `length_milli` thousandths of a unit sampled at
/// `resolution` cells per unit: the product rounded to the nearest integer (halves up), and
/// at least one.
pub open spec fn grid_cells(length_milli: int, resolution: int) -> int {
    let rounded = (length_milli * resolution + LENGTH_SCALE / 2) / (LENGTH_SCALE as int);
    if rounded < 1 {
        1
    } else {
        rounded
    }
}

/// Returns the width and height of each simulation grid for a square of side `length_milli`
/// thousandths of a unit sampled at `resolution` cells per unit, or `None` when that count
/// does not fit in a `u32` texture dimension.
pub fn grid_extent(length_milli: u32, resolution: u32) -> (r: Option<u32>)
    ensures
        r matches Some(n) ==> n == grid_cells(length_milli as int, resolution as int),
        r is None <==> grid_cells(length_milli as int, resolution as int) > u32::MAX,
{
    assert((length_milli as int) * (resolution as int) <= 0xffff_fffe_0000_0001) by (nonlinear_arith)
        requires
            length_milli <= u32::MAX,
            resolution <= u32::MAX,
    ;
    let product: u64 = (length_milli as u64) * (resolution as u64);
    let rounded: u64 = (product + LENGTH_SCALE / 2) / LENGTH_SCALE;
    if rounded < 1 {
        Some(1)
    } else if rounded > u32::MAX as u64 {
        None
    } else {
        Some(rounded as u32)
    }
}

/// The compute work of one simulation step: which grid it reads (the other one is written)
/// and how many workgroups it dispatches.
#[derive(Clone, Copy, Debug, PartialEq, Eq, Structural)]
pub struct TickDispatch {
    pub read: Grid,
    pub groups: WorkgroupCount,
}

/// The double-buffered wave simulation.
///
/// `G` is the handle of a bind group. `a_read_b_write_bind_group` binds grid `A` for reading
/// and grid `B` for writing; `b_read_a_write_bind_group` the reverse. Both are built once and
/// only ever selected, by the parity in `active`.
pub struct WaveSimulation<G> {
    /// The grid that holds the most recent state and is read by the next step.
    active: Grid,
    /// How many steps have been taken.
    ticks: Ghost<nat>,
    /// Width and height, in cells, of each of the two square grids.
    grid_size: u32,
    a_read_b_write_bind_group: G,
    b_read_a_write_bind_group: G,
}

impl<G> WaveSimulation<G> {
    /// The grid that holds the most recently computed state.
    pub closed spec fn role(&self) -> Grid {
        self.active
    }

    /// The number of steps taken since the simulation was created.
    pub closed spec fn ticks(&self) -> nat {
        self.ticks@
    }

    /// Width and height, in cells, of each grid.
    pub closed spec fn grid_size(&self) -> int {
        self.grid_size as int
    }

    /// The bind group that reads `read` and writes the other grid.
    pub closed spec fn bind_group_spec(&self, read: Grid) -> G {
        match read {
            Grid::A => self.a_read_b_write_bind_group,
            Grid::B => self.b_read_a_write_bind_group,
        }
    }

    /// The parity invariant: the read grid is determined by the number of steps taken.
    pub closed spec fn wf(&self) -> bool {
        &&& self.active == role_of(self.ticks@)
        &&& self.grid_size >= 1
    }

    /// Creates the simulation over two `grid_size` × `grid_size` grids, given the two
    /// complementary bind groups. Grid `A` is read first.
    pub fn new(grid_size: u32, a_read_b_write_bind_group: G, b_read_a_write_bind_group: G) -> (r:
        Self)
        requires
            grid_size >= 1,
        ensures
            r.wf(),
            r.ticks() == 0,
            r.role() == Grid::A,
            r.grid_size() == grid_size,
            r.bind_group_spec(Grid::A) == a_read_b_write_bind_group,
            r.bind_group_spec(Grid::B) == b_read_a_write_bind_group,
    {
        WaveSimulation {
            active: Grid::A,
            ticks: Ghost(0),
            grid_size,
            a_read_b_write_bind_group,
            b_read_a_write_bind_group,
        }
    }

    /// Returns the width and height, in cells, of each grid.
    pub fn size(&self) -> (r: u32)
        ensures
            r == self.grid_size(),
    {
        self.grid_size
    }

    /// Returns the grid that holds the most recently computed state.
    pub fn active_grid(&self) -> (r: Grid)
        ensures
            r == self.role(),
    {
        self.active
    }

    /// Returns the bind group that reads `read` and writes the other grid.
    pub fn bind_group(&self, read: Grid) -> (r: &G)
        ensures
            *r == self.bind_group_spec(read),
    {
        match read {
            Grid::A => &self.a_read_b_write_bind_group,
            Grid::B => &self.b_read_a_write_bind_group,
        }
    }

    /// Returns the bind group whose read grid holds the most recently computed state.
    pub fn get_active_texture(&self) -> (r: &G)
        ensures
            *r == self.bind_group_spec(self.role()),
    {
        self.bind_group(self.active)
    }

    /// Advances the simulation by one step: returns the dispatch to record, which reads the
    /// current grid, writes the other one and covers the whole grid with 16×16×1 workgroups,
    /// then flips the roles of the two grids.
    pub fn tick(&mut self) -> (r: TickDispatch)
        requires
            old(self).wf(),
        ensures
            final(self).wf(),
            r.read == old(self).role(),
            r.groups.x == groups_for(old(self).grid_size()),
            r.groups.y == groups_for(old(self).grid_size()),
            r.groups.z == 1,
            final(self).ticks() == old(self).ticks() + 1,
            final(self).role() == old(self).role().spec_other(),
            final(self).role() == role_of(final(self).ticks()),
            final(self).grid_size() == old(self).grid_size(),
            forall|g: Grid| final(self).bind_group_spec(g) == old(self).bind_group_spec(g),
    {
        let read = self.active;
        let groups = dispatch_for(self.grid_size, self.grid_size);
        self.active = read.other();
        self.ticks = Ghost(self.ticks@ + 1);
        TickDispatch { read, groups }
    }
}

/// A step never reads and writes the same grid: the written grid is always the other one.
pub proof fn lemma_read_write_disjoint(read: Grid)
    ensures
        read.spec_other() != read,
        read.spec_other().spec_other() == read,
{
}

/// The read grid strictly alternates: `A` before any step, then a different grid after
/// each step, so `A` after an even number of steps and `B` after an odd one.
pub proof fn lemma_role_alternates(ticks: nat)
    ensures
        role_of(0) == Grid::A,
        role_of(ticks + 1) != role_of(ticks),
        role_of(ticks + 1) == role_of(ticks).spec_other(),
        role_of(ticks) == (if ticks % 2 == 0 { Grid::A } else { Grid::B }),
{
}

/// Flipping the roles one step at a time, `ticks` times, gives the same grid as reading it
/// off the parity of `ticks` directly.
pub proof fn lemma_stepwise_matches_parity(ticks: nat)
    ensures
        role_after(ticks) == role_of(ticks),
    decreases ticks,
{
    if ticks > 0 {
        lemma_stepwise_matches_parity((ticks - 1) as nat);
    }
}

} // verus!
