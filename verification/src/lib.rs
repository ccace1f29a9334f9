//! Orchestration core of a falling-sand cellular automaton that runs on the
//! GPU.
//!
//! The cell grid lives in one read-write texture. Two compute kernels work on
//! it: `init` seeds the grid once, `update` advances it every frame. Both are
//! compiled in the background, so the render-graph node that drives them is a
//! small forward-only state machine which polls for readiness and never
//! blocks a frame.
//!
//! Everything here is plain data and decisions. The GPU device, the pipeline
//! cache and the command encoder belong to the embedding engine: it reports
//! what it observes (`PipelineStatus`, `ViewId`) and carries out what this
//! crate decides (`PipelineRequest`, `ResourceBinding`, `PassCommands`).

use vstd::prelude::*;

pub mod cell_image;
pub mod config;
pub mod frames;
pub mod pipeline;

verus! {

/// Default simulation grid, in cells: width and height.
pub const SIMULATION_SIZE: (u32, u32) = (1280, 720);

/// Default side of a square workgroup, in cells.
pub const WORKGROUP_SIZE: u32 = 8;

} // verus!
