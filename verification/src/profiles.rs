//! The fixed background plasma: electron density and temperature profiles,
//! set once from a parabolic formula and never mutated afterward.

use crate::fixed::{DENSITY_MAX, NR_MAX};
use vstd::prelude::*;

verus! {

/// Peak electron density at the axis: `8e19 m^-3` in library units.
pub const ELECTRON_DENSITY_PEAK: i128 = 800_000_000;

/// Peak electron temperature at the axis: `8 keV`.
pub const ELECTRON_TEMP_PEAK: i128 = 8_000_000;

/// Impurity density at the axis at startup: `0.2e18 m^-3`.
pub const IMPURITY_CENTER_INIT: i128 = 2_000_000;

/// How much higher the startup impurity density is at the wall: `0.8e18 m^-3`.
pub const IMPURITY_EDGE_RISE: i128 = 8_000_000;

/// The parabolic startup shape `peak * (1 - r^2)` at node `i` of an `nr`-node
/// grid, evaluated exactly: `peak * ((nr-1)^2 - i^2) / (nr-1)^2`.
pub open spec fn parabolic(peak: int, nr: int, i: int) -> int {
    peak * ((nr - 1) * (nr - 1) - i * i) / ((nr - 1) * (nr - 1))
}

/// The startup impurity shape `base + rise * r^2` at node `i`: hollow at the
/// axis, highest at the wall.
pub open spec fn hollow(base: int, rise: int, nr: int, i: int) -> int {
    (base * ((nr - 1) * (nr - 1)) + rise * (i * i)) / ((nr - 1) * (nr - 1))
}

/// The fixed-after-init electron density and temperature fields; only the
/// turbulence closure reads them.
#[derive(Clone, Debug)]
pub struct BackgroundProfiles {
    pub electron_density: Vec<i128>,
    pub electron_temp: Vec<i128>,
}

impl BackgroundProfiles {
    /// Shape and bounds every later proof needs: both fields have one value
    /// per grid node, each within `[0, DENSITY_MAX]`.
    pub open spec fn wf(self, nr: int) -> bool {
        &&& self.electron_density@.len() == nr
        &&& self.electron_temp@.len() == nr
        &&& forall|i: int|
            0 <= i < nr ==> 0 <= #[trigger] self.electron_density@[i] <= DENSITY_MAX
        &&& forall|i: int| 0 <= i < nr ==> 0 <= #[trigger] self.electron_temp@[i] <= DENSITY_MAX
    }

    /// Builds the standard parabolic background: density `8e19 * (1 - r^2)`
    /// and temperature `8 * (1 - r^2)` at each node.
    pub fn initialize(nr: usize) -> (p: BackgroundProfiles)
        requires
            3 <= nr <= NR_MAX,
        ensures
            p.wf(nr as int),
            forall|i: int|
                0 <= i < nr ==> #[trigger] p.electron_density@[i] == parabolic(
                    ELECTRON_DENSITY_PEAK as int,
                    nr as int,
                    i,
                ),
            forall|i: int|
                0 <= i < nr ==> #[trigger] p.electron_temp@[i] == parabolic(
                    ELECTRON_TEMP_PEAK as int,
                    nr as int,
                    i,
                ),
    {
        let mut density: Vec<i128> = Vec::new();
        let mut temp: Vec<i128> = Vec::new();
        let mut i: usize = 0;
        while i < nr
            invariant
                3 <= nr <= NR_MAX,
                i <= nr,
                density@.len() == i,
                temp@.len() == i,
                forall|k: int|
                    0 <= k < i ==> #[trigger] density@[k] == parabolic(
                        ELECTRON_DENSITY_PEAK as int,
                        nr as int,
                        k,
                    ),
                forall|k: int|
                    0 <= k < i ==> #[trigger] temp@[k] == parabolic(
                        ELECTRON_TEMP_PEAK as int,
                        nr as int,
                        k,
                    ),
                forall|k: int| 0 <= k < i ==> 0 <= #[trigger] density@[k] <= DENSITY_MAX,
                forall|k: int| 0 <= k < i ==> 0 <= #[trigger] temp@[k] <= DENSITY_MAX,
            decreases nr - i,
        {
            let d: i128 = parabolic_at(ELECTRON_DENSITY_PEAK, nr, i);
            let t: i128 = parabolic_at(ELECTRON_TEMP_PEAK, nr, i);
            density.push(d);
            temp.push(t);
            i = i + 1;
        }
        BackgroundProfiles { electron_density: density, electron_temp: temp }
    }
}

/// Evaluates the parabolic startup shape at one node.
pub fn parabolic_at(peak: i128, nr: usize, i: usize) -> (v: i128)
    requires
        3 <= nr <= NR_MAX,
        i < nr,
        0 <= peak <= DENSITY_MAX,
    ensures
        v == parabolic(peak as int, nr as int, i as int),
        0 <= v <= peak,
{
    let n1: i128 = (nr - 1) as i128;
    let ii: i128 = i as i128;
    proof {
        assert(0 <= ii * ii <= n1 * n1 && 1 <= n1 * n1 <= (NR_MAX * NR_MAX) as int) by (
        nonlinear_arith)
            requires
                0 <= ii <= n1 <= NR_MAX as int,
                1 <= n1,
        ;
    }
    let den: i128 = n1 * n1;
    let num: i128 = den - ii * ii;
    proof {
        assert(0 <= peak * num <= peak * den && peak * den <= DENSITY_MAX * ((NR_MAX
            * NR_MAX) as int)) by (nonlinear_arith)
            requires
                0 <= peak <= DENSITY_MAX,
                0 <= num <= den <= (NR_MAX * NR_MAX) as int,
        ;
        assert(peak * num / den as int <= peak) by {
            vstd::arithmetic::div_mod::lemma_div_is_ordered(peak * num, peak * den, den as int);
            vstd::arithmetic::div_mod::lemma_div_multiples_vanish(peak as int, den as int);
        }
        vstd::arithmetic::div_mod::lemma_div_pos_is_pos(peak * num, den as int);
    }
    let prod: i128 = peak * num;
    crate::fixed::div_floor(prod, den)
}

/// Evaluates the hollow startup impurity shape at one node.
pub fn hollow_at(base: i128, rise: i128, nr: usize, i: usize) -> (v: i128)
    requires
        3 <= nr <= NR_MAX,
        i < nr,
        0 <= base,
        0 <= rise,
        base + rise <= DENSITY_MAX,
    ensures
        v == hollow(base as int, rise as int, nr as int, i as int),
        0 <= v <= base + rise,
{
    let n1: i128 = (nr - 1) as i128;
    let ii: i128 = i as i128;
    proof {
        assert(0 <= ii * ii <= n1 * n1 && 1 <= n1 * n1 <= (NR_MAX * NR_MAX) as int) by (
        nonlinear_arith)
            requires
                0 <= ii <= n1 <= NR_MAX as int,
                1 <= n1,
        ;
    }
    let den: i128 = n1 * n1;
    proof {
        assert(0 <= rise * (ii * ii) <= rise * den && 0 <= base * den && base * den + rise * den
            == (base + rise) * den && (base + rise) * den <= DENSITY_MAX * ((NR_MAX
            * NR_MAX) as int)) by (nonlinear_arith)
            requires
                0 <= rise,
                0 <= base,
                base + rise <= DENSITY_MAX,
                0 <= ii * ii <= den <= (NR_MAX * NR_MAX) as int,
        ;
    }
    let num: i128 = base * den + rise * (ii * ii);
    proof {
        assert(num as int / den as int <= base + rise) by {
            vstd::arithmetic::div_mod::lemma_div_is_ordered(
                num as int,
                (base + rise) * den,
                den as int,
            );
            vstd::arithmetic::div_mod::lemma_div_multiples_vanish(base + rise, den as int);
        }
        vstd::arithmetic::div_mod::lemma_div_pos_is_pos(num as int, den as int);
    }
    crate::fixed::div_floor(num, den)
}

} // verus!
