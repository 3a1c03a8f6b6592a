//! The fixed radial grid: `nr` nodes spread uniformly over the normalized
//! radius `[0, 1]`, so node `i` sits at coordinate `i / (nr - 1)`.
//!
//! The coordinate of a node is a rational number; rather than round it, every
//! comparison against a radial threshold is done exactly by cross-multiplying
//! with `nr - 1`.

use crate::fixed::{NR_MAX, SCALE};
use vstd::prelude::*;

verus! {

/// Node `i` of an `nr`-node grid lies where turbulence is structurally
/// suppressed: its coordinate `i / (nr - 1)` is below `0.02` or above `0.98`.
pub open spec fn in_suppressed_region(nr: int, i: int) -> bool {
    50 * i < (nr - 1) || 50 * i > 49 * (nr - 1)
}

/// Node `i` lies in the edge region (`coordinate > 0.7`) where a pulse
/// enhances turbulence.
pub open spec fn in_edge_region(nr: int, i: int) -> bool {
    10 * i > 7 * (nr - 1)
}

/// Node `i` is so close to the magnetic axis (`coordinate <= 0.01`) that the
/// cylindrical divergence is replaced by its regularized flat form.
pub open spec fn near_axis(nr: int, i: int) -> bool {
    100 * i <= nr - 1
}

/// Node `i` lies beyond the fixed-point radial threshold `thr` (the edge
/// fueling region when `thr` is the configured source threshold).
pub open spec fn beyond_radius(nr: int, i: int, thr: int) -> bool {
    SCALE * i > thr * (nr - 1)
}

/// The immutable discretization of the normalized radius `[0, 1]`.
#[derive(Clone, Copy, Debug)]
pub struct RadialGrid {
    /// Number of nodes; the uniform spacing is `1 / (nr - 1)`.
    pub nr: usize,
}

impl RadialGrid {
    pub open spec fn valid(self) -> bool {
        3 <= self.nr <= NR_MAX
    }

    pub fn new(nr: usize) -> (g: RadialGrid)
        requires
            3 <= nr <= NR_MAX,
        ensures
            g.nr == nr,
            g.valid(),
    {
        RadialGrid { nr }
    }

    /// Whether node `i` is in the suppressed-turbulence skin at the axis or
    /// the wall.
    pub fn is_suppressed(&self, i: usize) -> (r: bool)
        requires
            self.valid(),
            i < self.nr,
        ensures
            r == in_suppressed_region(self.nr as int, i as int),
    {
        50 * i < self.nr - 1 || 50 * i > 49 * (self.nr - 1)
    }

    /// Whether node `i` is in the pulse-enhanced edge region.
    pub fn is_edge(&self, i: usize) -> (r: bool)
        requires
            self.valid(),
            i < self.nr,
        ensures
            r == in_edge_region(self.nr as int, i as int),
    {
        10 * i > 7 * (self.nr - 1)
    }

    /// Whether node `i` is close enough to the axis for the flat divergence.
    pub fn is_near_axis(&self, i: usize) -> (r: bool)
        requires
            self.valid(),
            i < self.nr,
        ensures
            r == near_axis(self.nr as int, i as int),
    {
        100 * i <= self.nr - 1
    }

    /// Whether node `i` lies beyond the fixed-point radial threshold `thr`.
    pub fn is_beyond(&self, i: usize, thr: i128) -> (r: bool)
        requires
            self.valid(),
            i < self.nr,
            0 <= thr <= SCALE,
        ensures
            r == beyond_radius(self.nr as int, i as int, thr as int),
    {
        let n1: i128 = (self.nr - 1) as i128;
        proof {
            assert(0 <= thr * n1 <= SCALE * (NR_MAX as int)) by (nonlinear_arith)
                requires
                    0 <= thr <= SCALE,
                    0 <= n1 <= NR_MAX as int,
            ;
        }
        SCALE * (i as i128) > thr * n1
    }
}

} // verus!
