//! The chart side of the renderer: the immutable layout template built once
//! at startup, and the mapping from a history snapshot to the plotted points.

use vstd::prelude::*;
use crate::{BUFFER_SIZE, CANVAS_HEIGHT, CANVAS_WIDTH};

verus! {

/// Chart margin, in pixels.
pub const CHART_MARGIN: u32 = 10;

/// Size of each axis-label area, in pixels.
pub const CHART_LABEL_AREA: u32 = 30;

/// Upper end of the x domain: one slot per history index.
pub const X_MAX: u64 = 250;

/// Upper end of the y domain, in microseconds; larger samples are clipped by
/// the plotting transform, not rejected.
pub const Y_MAX_MICROS: u64 = 40000;

/// Indices wrap at this bound when mapped to x coordinates; with the history
/// capped at `BUFFER_SIZE` the wrap never fires, and is kept only as a seam
/// for a larger buffer.
pub const X_WRAP: usize = 1000;

/// The build-once layout descriptor for the chart: axis domain, canvas size
/// and styling margins. Immutable after construction; every frame restores a
/// fresh drawable from it instead of recomputing the layout.
pub struct ChartTemplate {
    pub width: usize,
    pub height: usize,
    pub x_max: u64,
    pub y_max_micros: u64,
    pub margin: u32,
    pub label_area: u32,
}

impl ChartTemplate {
    /// A usable template has a non-empty canvas and a non-empty domain.
    pub open spec fn wf(&self) -> bool {
        &&& self.width > 0
        &&& self.height > 0
        &&& self.x_max > 0
        &&& self.y_max_micros > 0
    }

    /// The one template this system uses: an 800 by 600 canvas, x over the
    /// history indices, y over 0..40000 microseconds.
    pub fn new() -> (c: ChartTemplate)
        ensures
            c.width == CANVAS_WIDTH,
            c.height == CANVAS_HEIGHT,
            c.x_max == X_MAX,
            c.y_max_micros == Y_MAX_MICROS,
            c.margin == CHART_MARGIN,
            c.label_area == CHART_LABEL_AREA,
            c.wf(),
    {
        ChartTemplate {
            width: CANVAS_WIDTH,
            height: CANVAS_HEIGHT,
            x_max: X_MAX,
            y_max_micros: Y_MAX_MICROS,
            margin: CHART_MARGIN,
            label_area: CHART_LABEL_AREA,
        }
    }
}

/// Maps a snapshot to the plotted line series: sample `i` becomes the point
/// `(i mod X_WRAP, sample)`, in insertion order.
pub fn plot_points(samples: &Vec<u64>) -> (pts: Vec<(usize, u64)>)
    ensures
        pts@.len() == samples@.len(),
        forall|i: int|
            0 <= i < pts@.len() ==> (#[trigger] pts@[i]).0 == i % (X_WRAP as int) && pts@[i].1
                == samples@[i],
{
    let n = samples.len();
    let mut pts: Vec<(usize, u64)> = Vec::with_capacity(n);
    let mut i: usize = 0;
    while i < n
        invariant
            i <= n,
            n == samples@.len(),
            pts@.len() == i,
            forall|j: int|
                0 <= j < i ==> (#[trigger] pts@[j]).0 == j % (X_WRAP as int) && pts@[j].1
                    == samples@[j],
        decreases n - i,
    {
        let x = i % X_WRAP;
        pts.push((x, samples[i]));
        proof {
            assert(x == (i as int) % (X_WRAP as int));
            assert(pts@[i as int] == (x, samples@[i as int]));
        }
        i += 1;
    }
    pts
}

/// The history capacity never reaches the wrap bound, so within one snapshot
/// the x coordinate is simply the index: the modulo is inactive.
pub proof fn lemma_wrap_inactive(i: int)
    requires
        0 <= i < BUFFER_SIZE,
    ensures
        i % (X_WRAP as int) == i,
{
}

} // verus!
