//! The turbulence closure model: a pure function of the background gradients
//! at one node and the current confinement mode, returning a local turbulent
//! diffusivity.

use crate::control::ConfinementMode;
use crate::fixed::{
    abs_i, clamp_i, div_floor, max_i, COEF_MAX, DENSITY_MAX, GRAD_BOUND, NR_MAX, SCALE,
    TURB_BOUND,
};
use crate::grid::{in_edge_region, in_suppressed_region, RadialGrid};
use crate::profiles::BackgroundProfiles;
use vstd::arithmetic::div_mod::{lemma_div_is_ordered, lemma_div_pos_is_pos};
use vstd::prelude::*;

verus! {

/// Diffusivity returned unconditionally in the suppressed skin: `0.05`.
pub const TURBULENCE_FLOOR: i128 = 50_000;

/// Lower clamp of the ITG-drive proxy `eta`: `0.1`.
pub const ETA_MIN: i128 = 100_000;

/// Upper clamp of the ITG-drive proxy `eta`: `10.0`.
pub const ETA_MAX: i128 = 10_000_000;

/// Below this `eta` the profiles count as self-similar: `0.8`.
pub const ETA_BAND_LO: i128 = 800_000;

/// Above this `eta` the profiles count as self-similar no more: `1.2`.
pub const ETA_BAND_HI: i128 = 1_200_000;

/// Multiplier while `Normal` and the profiles are self-similar: `0.3`.
pub const FACTOR_SUPPRESSED: i128 = 300_000;

/// Multiplier when no special condition holds: `1.0`.
pub const FACTOR_NOMINAL: i128 = 1_000_000;

/// Multiplier in the edge region during a pulse: `5.0`.
pub const FACTOR_ENHANCED: i128 = 5_000_000;

/// Centered first difference over spacing `2 / (nr - 1)` at node `i`:
/// `(s[i+1] - s[i-1]) * (nr - 1) / 2`.
pub open spec fn spec_gradient(s: Seq<i128>, nr: int, i: int) -> int {
    (s[i + 1] - s[i - 1]) * (nr - 1) / 2
}

/// The ITG-drive proxy at node `i`: the ratio `Ln / Lt` of the density and
/// temperature gradient scale lengths, clamped into `[0.1, 10.0]`. A zero
/// gradient is floored at one quantum, and a vanishing `Lt` takes the
/// regularized limit (`ETA_MAX`, or `ETA_MIN` when `Ln` vanishes too).
pub open spec fn spec_eta(ne: Seq<i128>, te: Seq<i128>, nr: int, i: int) -> int {
    let gn = max_i(abs_i(spec_gradient(ne, nr, i)), 1);
    let gt = max_i(abs_i(spec_gradient(te, nr, i)), 1);
    let ln = abs_i(ne[i] as int) * SCALE / gn;
    let lt = abs_i(te[i] as int) * SCALE / gt;
    if lt == 0 {
        if ln == 0 {
            ETA_MIN as int
        } else {
            ETA_MAX as int
        }
    } else {
        clamp_i(ln * SCALE / lt, ETA_MIN as int, ETA_MAX as int)
    }
}

/// The turbulent diffusivity at node `i` under `mode`: the floor value in the
/// suppressed skin; otherwise `d_turb_base` times the mode factor — `0.3`
/// when `Normal` with self-similar profiles, `5.0` in the edge during a
/// pulse, `1.0` otherwise.
pub open spec fn spec_turbulence(
    ne: Seq<i128>,
    te: Seq<i128>,
    nr: int,
    i: int,
    mode: ConfinementMode,
    d_turb_base: i128,
) -> int {
    if in_suppressed_region(nr, i) {
        TURBULENCE_FLOOR as int
    } else {
        let eta = spec_eta(ne, te, nr, i);
        let factor = match mode {
            ConfinementMode::Normal => if ETA_BAND_LO < eta < ETA_BAND_HI {
                FACTOR_SUPPRESSED as int
            } else {
                FACTOR_NOMINAL as int
            },
            ConfinementMode::Pulse => if in_edge_region(nr, i) {
                FACTOR_ENHANCED as int
            } else {
                FACTOR_NOMINAL as int
            },
        };
        d_turb_base * factor / SCALE as int
    }
}

/// Centered first difference of `s` at node `i`.
pub fn gradient_at(s: &Vec<i128>, nr: usize, i: usize) -> (g: i128)
    requires
        3 <= nr <= NR_MAX,
        s@.len() == nr,
        1 <= i <= nr - 2,
        forall|k: int| 0 <= k < nr ==> 0 <= #[trigger] s@[k] <= DENSITY_MAX,
    ensures
        g == spec_gradient(s@, nr as int, i as int),
        -GRAD_BOUND <= g <= GRAD_BOUND,
{
    let n1: i128 = (nr - 1) as i128;
    let d: i128 = s[i + 1] - s[i - 1];
    proof {
        assert(-DENSITY_MAX * (NR_MAX as int) <= d * n1 <= DENSITY_MAX * (NR_MAX as int)) by (
        nonlinear_arith)
            requires
                -DENSITY_MAX <= d <= DENSITY_MAX,
                0 <= n1 <= NR_MAX as int,
        ;
    }
    let p: i128 = d * n1;
    let g: i128 = div_floor(p, 2);
    proof {
        lemma_div_is_ordered(p as int, DENSITY_MAX * (NR_MAX as int), 2);
        lemma_div_is_ordered(-DENSITY_MAX * (NR_MAX as int), p as int, 2);
    }
    g
}

/// The turbulent diffusivity at interior node `i` (`1 <= i <= nr - 2`),
/// computed from the background gradients and the current mode alone: the
/// result is a function of its arguments, nothing else.
pub fn turbulence_level(
    profiles: &BackgroundProfiles,
    grid: &RadialGrid,
    mode: ConfinementMode,
    d_turb_base: i128,
    i: usize,
) -> (turb: i128)
    requires
        grid.valid(),
        profiles.wf(grid.nr as int),
        1 <= i <= grid.nr - 2,
        0 <= d_turb_base <= COEF_MAX,
    ensures
        turb == spec_turbulence(
            profiles.electron_density@,
            profiles.electron_temp@,
            grid.nr as int,
            i as int,
            mode,
            d_turb_base,
        ),
        0 <= turb <= TURB_BOUND,
{
    if grid.is_suppressed(i) {
        return TURBULENCE_FLOOR;
    }
    let gn_raw: i128 = gradient_at(&profiles.electron_density, grid.nr, i);
    let gt_raw: i128 = gradient_at(&profiles.electron_temp, grid.nr, i);
    let gn: i128 = if gn_raw < 0 {
        -gn_raw
    } else {
        gn_raw
    };
    let gt: i128 = if gt_raw < 0 {
        -gt_raw
    } else {
        gt_raw
    };
    let gn1: i128 = if gn < 1 {
        1
    } else {
        gn
    };
    let gt1: i128 = if gt < 1 {
        1
    } else {
        gt
    };
    let nv: i128 = profiles.electron_density[i];
    let tv: i128 = profiles.electron_temp[i];
    let ln: i128 = div_floor(nv * SCALE, gn1);
    let lt: i128 = div_floor(tv * SCALE, gt1);
    proof {
        lemma_div_pos_is_pos(nv * SCALE, gn1 as int);
        lemma_div_pos_is_pos(tv * SCALE, gt1 as int);
        assert(nv * SCALE / gn1 as int <= nv * SCALE) by (nonlinear_arith)
            requires
                0 <= nv * SCALE,
                1 <= gn1,
        ;
        assert(tv * SCALE / gt1 as int <= tv * SCALE) by (nonlinear_arith)
            requires
                0 <= tv * SCALE,
                1 <= gt1,
        ;
        assert(abs_i(nv as int) == nv as int && abs_i(tv as int) == tv as int);
    }
    let eta: i128 = if lt == 0 {
        if ln == 0 {
            ETA_MIN
        } else {
            ETA_MAX
        }
    } else {
        let raw: i128 = div_floor(ln * SCALE, lt);
        crate::fixed::clamp(raw, ETA_MIN, ETA_MAX)
    };
    let factor: i128 = match mode {
        ConfinementMode::Normal => {
            if ETA_BAND_LO < eta && eta < ETA_BAND_HI {
                FACTOR_SUPPRESSED
            } else {
                FACTOR_NOMINAL
            }
        },
        ConfinementMode::Pulse => {
            if grid.is_edge(i) {
                FACTOR_ENHANCED
            } else {
                FACTOR_NOMINAL
            }
        },
    };
    let prod: i128 = d_turb_base * factor;
    let turb: i128 = div_floor(prod, SCALE);
    proof {
        lemma_div_pos_is_pos(prod as int, SCALE as int);
        lemma_div_is_ordered(prod as int, COEF_MAX * (FACTOR_ENHANCED as int), SCALE as int);
    }
    turb
}

/// The closure model is deterministic: on equal field state, grid, mode and
/// base diffusivity it yields equal diffusivities — there is no hidden input.
pub proof fn lemma_turbulence_pure(
    ne1: Seq<i128>,
    te1: Seq<i128>,
    ne2: Seq<i128>,
    te2: Seq<i128>,
    nr: int,
    i: int,
    mode: ConfinementMode,
    d_turb_base: i128,
)
    requires
        ne1 == ne2,
        te1 == te2,
    ensures
        spec_turbulence(ne1, te1, nr, i, mode, d_turb_base) == spec_turbulence(
            ne2,
            te2,
            nr,
            i,
            mode,
            d_turb_base,
        ),
{
}

} // verus!
