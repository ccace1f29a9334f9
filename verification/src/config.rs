//! Grid dimensions and workgroup size, fixed at startup.

use vstd::prelude::*;

verus! {

/// Dimensions of the simulation grid and the side of the square workgroups
/// that tile it.
///
/// A configuration always has a non-zero workgroup size; the grid itself may
/// have any dimensions, including ones the workgroup size does not divide.
#[derive(Clone, Copy, Debug, PartialEq, Eq)]
pub struct SimulationConfig {
    width: u32,
    height: u32,
    workgroup_size: u32,
}

impl SimulationConfig {
    /// Grid width in cells.
    pub closed spec fn spec_width(&self) -> u32 {
        self.width
    }

    /// Grid height in cells.
    pub closed spec fn spec_height(&self) -> u32 {
        self.height
    }

    /// Side of a workgroup in cells.
    pub closed spec fn spec_workgroup_size(&self) -> u32 {
        self.workgroup_size
    }

    /// What every configuration that exists at run time satisfies: its
    /// workgroup size is not zero.
    #[verifier::type_invariant]
    pub open spec fn valid(&self) -> bool {
        self.spec_workgroup_size() > 0
    }

    /// Workgroup counts of one dispatch over the grid: whole workgroups along
    /// the width, whole workgroups along the height, and a single layer.
    pub open spec fn spec_workgroups(&self) -> (u32, u32, u32) {
        (
            (self.spec_width() / self.spec_workgroup_size()) as u32,
            (self.spec_height() / self.spec_workgroup_size()) as u32,
            1u32,
        )
    }

    /// Whether the workgroups of a dispatch reach every cell of the grid.
    pub open spec fn spec_covers_grid(&self) -> bool {
        &&& self.spec_width() % self.spec_workgroup_size() == 0
        &&& self.spec_height() % self.spec_workgroup_size() == 0
    }

    /// A configuration for a `width` x `height` grid tiled by workgroups of
    /// side `workgroup_size`, or `None` when `workgroup_size` is zero.
    pub fn new(width: u32, height: u32, workgroup_size: u32) -> (config: Option<Self>)
        ensures
            config is None <==> workgroup_size == 0,
            config matches Some(c) ==> {
                &&& c.valid()
                &&& c.spec_width() == width
                &&& c.spec_height() == height
                &&& c.spec_workgroup_size() == workgroup_size
            },
    {
        if workgroup_size == 0 {
            None
        } else {
            Some(SimulationConfig { width, height, workgroup_size })
        }
    }

    #[verifier::when_used_as_spec(spec_width)]
    pub fn width(&self) -> (width: u32)
        ensures
            width == self.spec_width(),
    {
        self.width
    }

    #[verifier::when_used_as_spec(spec_height)]
    pub fn height(&self) -> (height: u32)
        ensures
            height == self.spec_height(),
    {
        self.height
    }

    #[verifier::when_used_as_spec(spec_workgroup_size)]
    pub fn workgroup_size(&self) -> (size: u32)
        ensures
            size == self.spec_workgroup_size(),
            size > 0,
    {
        proof {
            use_type_invariant(self);
        }
        self.workgroup_size
    }

    /// Workgroup counts of one dispatch: `(width / workgroup_size,
    /// height / workgroup_size, 1)`, both divisions rounding down.
    #[verifier::when_used_as_spec(spec_workgroups)]
    pub fn workgroups(&self) -> (counts: (u32, u32, u32))
        ensures
            counts == self.spec_workgroups(),
            counts.0 == self.spec_width() as int / self.spec_workgroup_size() as int,
            counts.1 == self.spec_height() as int / self.spec_workgroup_size() as int,
            counts.2 == 1,
    {
        proof {
            use_type_invariant(self);
        }
        (self.width / self.workgroup_size, self.height / self.workgroup_size, 1)
    }

    /// Whether the workgroup size divides both dimensions, so that a dispatch
    /// leaves no cell out.
    #[verifier::when_used_as_spec(spec_covers_grid)]
    pub fn covers_grid(&self) -> (covers: bool)
        ensures
            covers == self.spec_covers_grid(),
    {
        proof {
            use_type_invariant(self);
        }
        self.width % self.workgroup_size == 0 && self.height % self.workgroup_size == 0
    }
}

impl Default for SimulationConfig {
    /// The default grid of 1280 x 720 cells with workgroups of side 8.
    fn default() -> (config: Self)
        ensures
            config.valid(),
            config.spec_width() == crate::SIMULATION_SIZE.0,
            config.spec_height() == crate::SIMULATION_SIZE.1,
            config.spec_workgroup_size() == crate::WORKGROUP_SIZE,
    {
        SimulationConfig {
            width: crate::SIMULATION_SIZE.0,
            height: crate::SIMULATION_SIZE.1,
            workgroup_size: crate::WORKGROUP_SIZE,
        }
    }
}

} // verus!
