//! Explicit Euler integration of the radial impurity continuity equation
//! `dn/dt = -(1/r) d(r*flux)/dr + source`, with the near-axis regularization,
//! the edge fueling source, the safety clamp, and the two boundary rules.
//!
//! Radii never appear as rounded scalars: node `i` sits at `i / (nr - 1)`, so
//! every factor of `r` or `1 / dr` is folded into exact integer arithmetic
//! over `i` and `nr - 1`.

use crate::config::Config;
use crate::control::ConfinementMode;
use crate::fixed::{clamp, clamp_i, div_floor, DENSITY_MAX, DT_MAX, FLUX_BOUND, NR_MAX, SCALE};
use crate::flux::{calculate_flux, spec_flux};
use crate::grid::{beyond_radius, near_axis, RadialGrid};
use crate::profiles::BackgroundProfiles;
use vstd::arithmetic::div_mod::{
    lemma_div_is_ordered, lemma_div_multiples_vanish, lemma_div_pos_is_pos,
};
use vstd::prelude::*;

verus! {

/// Bound on the magnitude of a flux divergence: `2 * FLUX_BOUND * NR_MAX`
/// with headroom for the source term.
pub const DIVERGENCE_BOUND: i128 = 4_000_000_000_000_000_000_000;

/// The edge fueling source at node `i`: the configured rate beyond the
/// configured radius, zero elsewhere.
pub open spec fn spec_source(nr: int, i: int, cfg: Config) -> int {
    if beyond_radius(nr, i, cfg.source_r_threshold as int) {
        cfg.source_rate as int
    } else {
        0
    }
}

/// The divergence of `r * flux` at interior node `i`, divided by `r`: the
/// cylindrical form `(r+ f+ - r- f-) / (r dr)` away from the axis, and its
/// regularized flat limit `(f+ - f-) / dr` where `r <= 0.01`. With
/// `r = i / (nr-1)` both reduce to exact integer expressions.
pub open spec fn spec_divergence(
    nz: Seq<i128>,
    ne: Seq<i128>,
    te: Seq<i128>,
    nr: int,
    i: int,
    mode: ConfinementMode,
    cfg: Config,
) -> int {
    let fp = spec_flux(nz, ne, te, nr, i, mode, cfg);
    let fm = spec_flux(nz, ne, te, nr, i - 1, mode, cfg);
    if near_axis(nr, i) {
        (fp - fm) * (nr - 1)
    } else {
        ((2 * i + 1) * fp - (2 * i - 1) * fm) * (nr - 1) / (2 * i)
    }
}

/// The raw Euler step `n + (source - divergence) * dt` at interior node `i`,
/// before the safety clamp.
pub open spec fn spec_raw_next(
    nz: Seq<i128>,
    ne: Seq<i128>,
    te: Seq<i128>,
    nr: int,
    i: int,
    mode: ConfinementMode,
    cfg: Config,
) -> int {
    let div = spec_divergence(nz, ne, te, nr, i, mode, cfg);
    let src = spec_source(nr, i, cfg);
    nz[i] + (src - div) * cfg.dt / SCALE as int
}

/// The next value of interior node `i`: the raw Euler step clamped into
/// `[0, DENSITY_MAX]`.
pub open spec fn spec_interior_next(
    nz: Seq<i128>,
    ne: Seq<i128>,
    te: Seq<i128>,
    nr: int,
    i: int,
    mode: ConfinementMode,
    cfg: Config,
) -> int {
    clamp_i(spec_raw_next(nz, ne, te, nr, i, mode, cfg), 0, DENSITY_MAX as int)
}

/// How many of the interior nodes `1 .. n` the safety clamp corrects in this
/// step: those whose raw Euler value leaves `[0, DENSITY_MAX]`.
pub open spec fn spec_clamp_count(
    nz: Seq<i128>,
    ne: Seq<i128>,
    te: Seq<i128>,
    nr: int,
    n: int,
    mode: ConfinementMode,
    cfg: Config,
) -> nat
    decreases n,
{
    if n <= 1 {
        0
    } else {
        spec_clamp_count(nz, ne, te, nr, n - 1, mode, cfg) + {
            let raw = spec_raw_next(nz, ne, te, nr, n - 1, mode, cfg);
            if raw < 0 || raw > DENSITY_MAX {
                1nat
            } else {
                0nat
            }
        }
    }
}

/// The whole field after one step: interior nodes take their Euler update,
/// node `0` copies node `1` (axis symmetry), and the last node keeps the
/// configured fraction of its inward neighbor (absorbing outer boundary).
pub open spec fn spec_new_node(
    nz: Seq<i128>,
    ne: Seq<i128>,
    te: Seq<i128>,
    nr: int,
    k: int,
    mode: ConfinementMode,
    cfg: Config,
) -> int {
    if k == 0 {
        spec_interior_next(nz, ne, te, nr, 1, mode, cfg)
    } else if k == nr - 1 {
        cfg.edge_reflection * spec_interior_next(nz, ne, te, nr, nr - 2, mode, cfg) / SCALE as int
    } else {
        spec_interior_next(nz, ne, te, nr, k, mode, cfg)
    }
}

/// Every node the step produces lies in the safety range `[0, DENSITY_MAX]`:
/// interior nodes are clamped into it, the axis node copies one of them, and
/// the outer node keeps a fraction in `[0, 1]` of one of them.
pub proof fn lemma_field_stays_bounded(
    nz: Seq<i128>,
    ne: Seq<i128>,
    te: Seq<i128>,
    nr: int,
    k: int,
    mode: ConfinementMode,
    cfg: Config,
)
    requires
        nr >= 3,
        0 <= cfg.edge_reflection <= SCALE,
    ensures
        0 <= spec_new_node(nz, ne, te, nr, k, mode, cfg) <= DENSITY_MAX,
{
    let inner = spec_interior_next(nz, ne, te, nr, nr - 2, mode, cfg);
    assert(0 <= inner <= DENSITY_MAX);
    lemma_div_pos_is_pos(cfg.edge_reflection * inner, SCALE as int);
    assert(cfg.edge_reflection * inner <= SCALE * inner && 0 <= cfg.edge_reflection * inner) by (
    nonlinear_arith)
        requires
            0 <= cfg.edge_reflection <= SCALE,
            0 <= inner,
    ;
    lemma_div_is_ordered(cfg.edge_reflection * inner, SCALE * inner, SCALE as int);
    assert(SCALE * inner == inner * SCALE) by (nonlinear_arith);
    lemma_div_multiples_vanish(inner, SCALE as int);
}

/// The two boundary rules hold of the field the step produces: the axis node
/// equals its neighbor, and the outer node is exactly the configured fraction
/// of its inward neighbor.
pub proof fn lemma_boundary_conditions(
    nz: Seq<i128>,
    ne: Seq<i128>,
    te: Seq<i128>,
    nr: int,
    mode: ConfinementMode,
    cfg: Config,
)
    requires
        nr >= 3,
    ensures
        spec_new_node(nz, ne, te, nr, 0, mode, cfg) == spec_new_node(nz, ne, te, nr, 1, mode, cfg),
        spec_new_node(nz, ne, te, nr, nr - 1, mode, cfg) == cfg.edge_reflection * spec_new_node(
            nz,
            ne,
            te,
            nr,
            nr - 2,
            mode,
            cfg,
        ) / SCALE as int,
{
}

/// Bound on the magnitude of an unclamped Euler step value.
pub const RAW_BOUND: i128 = 5_000_000_000_000_000_000_000_000_000;

/// The raw Euler update of interior node `i`, before the safety clamp.
fn raw_next(
    nz: &Vec<i128>,
    profiles: &BackgroundProfiles,
    grid: &RadialGrid,
    mode: ConfinementMode,
    cfg: &Config,
    i: usize,
) -> (v: i128)
    requires
        grid.valid(),
        cfg.valid(),
        cfg.nr == grid.nr,
        profiles.wf(grid.nr as int),
        nz@.len() == grid.nr,
        1 <= i <= grid.nr - 2,
        forall|k: int| 0 <= k < nz@.len() ==> 0 <= #[trigger] nz@[k] <= DENSITY_MAX,
    ensures
        v == spec_raw_next(
            nz@,
            profiles.electron_density@,
            profiles.electron_temp@,
            grid.nr as int,
            i as int,
            mode,
            *cfg,
        ),
        -RAW_BOUND <= v <= RAW_BOUND,
{
    let fp: i128 = calculate_flux(nz, profiles, grid, mode, cfg, i);
    let fm: i128 = calculate_flux(nz, profiles, grid, mode, cfg, i - 1);
    let n1: i128 = (grid.nr - 1) as i128;
    let div: i128 = if grid.is_near_axis(i) {
        proof {
            assert(-2 * FLUX_BOUND * (NR_MAX as int) <= (fp - fm) * n1 <= 2 * FLUX_BOUND * (
            NR_MAX as int)) by (nonlinear_arith)
                requires
                    -2 * FLUX_BOUND <= fp - fm <= 2 * FLUX_BOUND,
                    0 <= n1 <= NR_MAX as int,
            ;
        }
        (fp - fm) * n1
    } else {
        let ii: i128 = i as i128;
        let ghost quarter = 4 * FLUX_BOUND * (ii as int);
        let ghost half = (2 * FLUX_BOUND * n1) as int;
        let ghost whole = (2 * ii as int) * half;
        proof {
            assert((2 * ii + 1) * fp - (2 * ii - 1) * fm <= quarter && -quarter <= (2 * ii + 1)
                * fp - (2 * ii - 1) * fm && (2 * ii + 1) * fp <= 3 * (NR_MAX as int) * FLUX_BOUND
                && -3 * (NR_MAX as int) * FLUX_BOUND <= (2 * ii + 1) * fp && (2 * ii - 1) * fm <= 3
                * (NR_MAX as int) * FLUX_BOUND && -3 * (NR_MAX as int) * FLUX_BOUND <= (2 * ii - 1)
                * fm) by (nonlinear_arith)
                requires
                    -FLUX_BOUND <= fp <= FLUX_BOUND,
                    -FLUX_BOUND <= fm <= FLUX_BOUND,
                    1 <= ii <= NR_MAX as int,
                    quarter == 4 * FLUX_BOUND * (ii as int),
            ;
        }
        let diff: i128 = (2 * ii + 1) * fp - (2 * ii - 1) * fm;
        proof {
            assert(diff * n1 <= whole && -whole <= diff * n1 && whole <= 4 * FLUX_BOUND * (
            NR_MAX as int) * (NR_MAX as int) && 0 <= whole) by (nonlinear_arith)
                requires
                    diff <= quarter && -quarter <= diff,
                    2 <= n1 <= NR_MAX as int,
                    1 <= ii <= NR_MAX as int,
                    quarter == 4 * FLUX_BOUND * (ii as int),
                    whole == (2 * ii as int) * (2 * FLUX_BOUND * n1),
            ;
        }
        let num: i128 = diff * n1;
        let q: i128 = div_floor(num, 2 * ii);
        proof {
            lemma_div_is_ordered(num as int, whole, 2 * ii);
            lemma_div_is_ordered(-whole, num as int, 2 * ii);
            lemma_div_multiples_vanish(half, 2 * ii);
            lemma_div_multiples_vanish(-half, 2 * ii);
            assert(-whole == (2 * ii as int) * (-half)) by (nonlinear_arith)
                requires
                    whole == (2 * ii as int) * half,
            ;
            assert(-half <= q <= half);
            assert(half <= 2 * FLUX_BOUND * (NR_MAX as int)) by (nonlinear_arith)
                requires
                    half == 2 * FLUX_BOUND * n1,
                    0 <= n1 <= NR_MAX as int,
            ;
        }
        q
    };
    let src: i128 = if grid.is_beyond(i, cfg.source_r_threshold) {
        cfg.source_rate
    } else {
        0
    };
    proof {
        assert(-DIVERGENCE_BOUND <= src - div <= DIVERGENCE_BOUND);
        assert(-DIVERGENCE_BOUND * DT_MAX <= (src - div) * cfg.dt <= DIVERGENCE_BOUND * DT_MAX) by (
        nonlinear_arith)
            requires
                -DIVERGENCE_BOUND <= src - div <= DIVERGENCE_BOUND,
                0 < cfg.dt <= DT_MAX,
        ;
    }
    let scaled: i128 = (src - div) * cfg.dt;
    let delta: i128 = div_floor(scaled, SCALE);
    proof {
        lemma_div_is_ordered(scaled as int, DIVERGENCE_BOUND * DT_MAX, SCALE as int);
        lemma_div_is_ordered(-DIVERGENCE_BOUND * DT_MAX, scaled as int, SCALE as int);
    }
    nz[i] + delta
}

/// One Euler update of interior node `i`: the raw step, clamped.
fn interior_next(
    nz: &Vec<i128>,
    profiles: &BackgroundProfiles,
    grid: &RadialGrid,
    mode: ConfinementMode,
    cfg: &Config,
    i: usize,
) -> (v: i128)
    requires
        grid.valid(),
        cfg.valid(),
        cfg.nr == grid.nr,
        profiles.wf(grid.nr as int),
        nz@.len() == grid.nr,
        1 <= i <= grid.nr - 2,
        forall|k: int| 0 <= k < nz@.len() ==> 0 <= #[trigger] nz@[k] <= DENSITY_MAX,
    ensures
        v == spec_interior_next(
            nz@,
            profiles.electron_density@,
            profiles.electron_temp@,
            grid.nr as int,
            i as int,
            mode,
            *cfg,
        ),
        0 <= v <= DENSITY_MAX,
{
    let raw: i128 = raw_next(nz, profiles, grid, mode, cfg, i);
    clamp(raw, 0, DENSITY_MAX)
}

/// How many interior nodes the safety clamp would correct in one step of the
/// field under `mode`: a silent numerical guard, counted here so a caller can
/// watch for scheme instability.
pub fn count_clamped_nodes(
    nz: &Vec<i128>,
    profiles: &BackgroundProfiles,
    grid: &RadialGrid,
    mode: ConfinementMode,
    cfg: &Config,
) -> (n: usize)
    requires
        grid.valid(),
        cfg.valid(),
        cfg.nr == grid.nr,
        profiles.wf(grid.nr as int),
        nz@.len() == grid.nr,
        forall|k: int| 0 <= k < nz@.len() ==> 0 <= #[trigger] nz@[k] <= DENSITY_MAX,
    ensures
        n == spec_clamp_count(
            nz@,
            profiles.electron_density@,
            profiles.electron_temp@,
            grid.nr as int,
            grid.nr - 1,
            mode,
            *cfg,
        ),
{
    let mut count: usize = 0;
    let mut i: usize = 1;
    while i < grid.nr - 1
        invariant
            grid.valid(),
            cfg.valid(),
            cfg.nr == grid.nr,
            profiles.wf(grid.nr as int),
            nz@.len() == grid.nr,
            forall|k: int| 0 <= k < nz@.len() ==> 0 <= #[trigger] nz@[k] <= DENSITY_MAX,
            1 <= i <= grid.nr - 1,
            count <= i - 1,
            count == spec_clamp_count(
                nz@,
                profiles.electron_density@,
                profiles.electron_temp@,
                grid.nr as int,
                i as int,
                mode,
                *cfg,
            ),
        decreases grid.nr - 1 - i,
    {
        let raw: i128 = raw_next(nz, profiles, grid, mode, cfg, i);
        if raw < 0 || raw > DENSITY_MAX {
            count = count + 1;
        }
        i = i + 1;
    }
    count
}

/// Advances the impurity field by one explicit Euler step: every interior
/// node is updated from the old field alone (the new field is built apart and
/// swapped in whole), then the two boundary rules are applied.
pub fn solve_transport_equation(
    nz: &Vec<i128>,
    profiles: &BackgroundProfiles,
    grid: &RadialGrid,
    mode: ConfinementMode,
    cfg: &Config,
) -> (out: Vec<i128>)
    requires
        grid.valid(),
        cfg.valid(),
        cfg.nr == grid.nr,
        profiles.wf(grid.nr as int),
        nz@.len() == grid.nr,
        forall|k: int| 0 <= k < nz@.len() ==> 0 <= #[trigger] nz@[k] <= DENSITY_MAX,
    ensures
        out@.len() == grid.nr,
        forall|k: int|
            0 <= k < grid.nr ==> #[trigger] out@[k] == spec_new_node(
                nz@,
                profiles.electron_density@,
                profiles.electron_temp@,
                grid.nr as int,
                k,
                mode,
                *cfg,
            ),
        forall|k: int| 0 <= k < grid.nr ==> 0 <= #[trigger] out@[k] <= DENSITY_MAX,
        out@[0] == out@[1],
        out@[grid.nr - 1] == cfg.edge_reflection * out@[grid.nr - 2] / SCALE as int,
{
    let ghost nzv = nz@;
    let ghost nev = profiles.electron_density@;
    let ghost tev = profiles.electron_temp@;
    let ghost nri = grid.nr as int;
    let mut out: Vec<i128> = Vec::new();
    out.push(0);
    let mut i: usize = 1;
    while i < grid.nr - 1
        invariant
            grid.valid(),
            cfg.valid(),
            cfg.nr == grid.nr,
            profiles.wf(grid.nr as int),
            nz@.len() == grid.nr,
            forall|k: int| 0 <= k < nz@.len() ==> 0 <= #[trigger] nz@[k] <= DENSITY_MAX,
            nzv == nz@,
            nev == profiles.electron_density@,
            tev == profiles.electron_temp@,
            nri == grid.nr as int,
            1 <= i <= grid.nr - 1,
            out@.len() == i,
            forall|k: int|
                1 <= k < i ==> #[trigger] out@[k] == spec_interior_next(
                    nzv,
                    nev,
                    tev,
                    nri,
                    k,
                    mode,
                    *cfg,
                ),
            forall|k: int| 1 <= k < i ==> 0 <= #[trigger] out@[k] <= DENSITY_MAX,
        decreases grid.nr - 1 - i,
    {
        let v: i128 = interior_next(nz, profiles, grid, mode, cfg, i);
        out.push(v);
        i = i + 1;
    }
    let inner: i128 = out[grid.nr - 2];
    proof {
        assert(0 <= cfg.edge_reflection * inner && cfg.edge_reflection * inner <= SCALE * inner)
            by (nonlinear_arith)
            requires
                0 <= cfg.edge_reflection <= SCALE,
                0 <= inner,
        ;
        lemma_div_pos_is_pos(cfg.edge_reflection * inner, SCALE as int);
        lemma_div_is_ordered(cfg.edge_reflection * inner, SCALE * inner, SCALE as int);
        assert(SCALE * inner == inner * SCALE) by (nonlinear_arith);
        lemma_div_multiples_vanish(inner as int, SCALE as int);
    }
    let last: i128 = div_floor(cfg.edge_reflection * inner, SCALE);
    out.push(last);
    let axis: i128 = out[1];
    out.set(0, axis);
    out
}

} // verus!
