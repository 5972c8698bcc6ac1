//! A verified core for a live interval chart: pointer-movement events are
//! timestamped, consecutive differences are recorded into a bounded shared
//! history, and a render loop plots a snapshot of that history at a capped
//! frame rate.

pub mod chart;
pub mod history;
pub mod laws;
pub mod recorder;
pub mod schedule;

use vstd::prelude::*;

verus! {

/// Capacity of the history buffer: only the most recent samples are kept.
pub const BUFFER_SIZE: usize = 250;

/// Width of the render canvas in pixels.
pub const CANVAS_WIDTH: usize = 800;

/// Height of the render canvas in pixels.
pub const CANVAS_HEIGHT: usize = 600;

/// Target visible update rate, in frames per second.
pub const FRAME_RATE: u64 = 120;

/// Minimum number of milliseconds that must have passed since the previous
/// presentation before a new frame may be presented.
pub const FRAME_INTERVAL_MS: u64 = 1000 / FRAME_RATE;

} // verus!
