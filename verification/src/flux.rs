//! The radial impurity flux at one cell face: neoclassical convection plus
//! Fickian diffusion with the turbulence-enhanced total diffusivity.

use crate::config::Config;
use crate::control::ConfinementMode;
use crate::fixed::{div_floor, COEF_MAX, DENSITY_MAX, FLUX_BOUND, GRAD_BOUND, SCALE, TURB_BOUND};
use crate::grid::RadialGrid;
use crate::profiles::BackgroundProfiles;
use crate::turbulence::{gradient_at, spec_gradient, spec_turbulence, turbulence_level};
use vstd::arithmetic::div_mod::lemma_div_is_ordered;
use vstd::prelude::*;

verus! {

/// The impurity flux at node `i`: exactly zero at the two boundary nodes
/// (structural no-flux condition); at an interior node, convection
/// `v_neo * n` plus diffusion `-(d_neo + d_turb) * dn/dr`.
pub open spec fn spec_flux(
    nz: Seq<i128>,
    ne: Seq<i128>,
    te: Seq<i128>,
    nr: int,
    i: int,
    mode: ConfinementMode,
    cfg: Config,
) -> int {
    if i <= 0 || i >= nr - 1 {
        0
    } else {
        let g = spec_gradient(nz, nr, i);
        let d_total = cfg.d_neo + spec_turbulence(ne, te, nr, i, mode, cfg.d_turb_base);
        cfg.v_neo * nz[i] / SCALE as int - d_total * g / SCALE as int
    }
}

/// Computes the face flux at node `i` from the impurity field, the background
/// profiles and the mode in force during this step.
pub fn calculate_flux(
    nz: &Vec<i128>,
    profiles: &BackgroundProfiles,
    grid: &RadialGrid,
    mode: ConfinementMode,
    cfg: &Config,
    i: usize,
) -> (f: i128)
    requires
        grid.valid(),
        cfg.valid(),
        cfg.nr == grid.nr,
        profiles.wf(grid.nr as int),
        nz@.len() == grid.nr,
        i < grid.nr,
        forall|k: int| 0 <= k < nz@.len() ==> 0 <= #[trigger] nz@[k] <= DENSITY_MAX,
    ensures
        f == spec_flux(
            nz@,
            profiles.electron_density@,
            profiles.electron_temp@,
            grid.nr as int,
            i as int,
            mode,
            *cfg,
        ),
        -FLUX_BOUND <= f <= FLUX_BOUND,
{
    if i == 0 || i >= grid.nr - 1 {
        return 0;
    }
    let g: i128 = gradient_at(nz, grid.nr, i);
    let turb: i128 = turbulence_level(profiles, grid, mode, cfg.d_turb_base, i);
    let d_total: i128 = cfg.d_neo + turb;
    let nv: i128 = nz[i];
    proof {
        assert(-COEF_MAX * DENSITY_MAX <= cfg.v_neo * nv <= COEF_MAX * DENSITY_MAX) by (
        nonlinear_arith)
            requires
                -COEF_MAX <= cfg.v_neo <= COEF_MAX,
                0 <= nv <= DENSITY_MAX,
        ;
        assert(-(COEF_MAX + TURB_BOUND) * GRAD_BOUND <= d_total * g <= (COEF_MAX + TURB_BOUND)
            * GRAD_BOUND) by (nonlinear_arith)
            requires
                0 <= d_total <= COEF_MAX + TURB_BOUND,
                -GRAD_BOUND <= g <= GRAD_BOUND,
        ;
    }
    let conv: i128 = div_floor(cfg.v_neo * nv, SCALE);
    let diff: i128 = div_floor(d_total * g, SCALE);
    proof {
        lemma_div_is_ordered(cfg.v_neo * nv, COEF_MAX * DENSITY_MAX, SCALE as int);
        lemma_div_is_ordered(-COEF_MAX * DENSITY_MAX, cfg.v_neo * nv, SCALE as int);
        lemma_div_is_ordered(d_total * g, (COEF_MAX + TURB_BOUND) * GRAD_BOUND, SCALE as int);
        lemma_div_is_ordered(-(COEF_MAX + TURB_BOUND) * GRAD_BOUND, d_total * g, SCALE as int);
    }
    conv - diff
}

} // verus!
