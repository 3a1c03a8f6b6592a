//! Fixed-point scalars and the arithmetic helpers the transport model uses.
//!
//! Every physical scalar in this crate is an `i128` holding `SCALE` times its
//! real value; densities are additionally expressed in units of `1e17 m^-3`.
//! Division is mathematical (Euclidean) division, so `a / b` in a contract
//! means exactly what the executable helpers compute.

use vstd::arithmetic::div_mod::{
    lemma_div_is_ordered, lemma_div_multiples_vanish, lemma_fundamental_div_mod,
    lemma_fundamental_div_mod_converse,
};
use vstd::prelude::*;

verus! {

/// The global fixed-point scale: an `i128` value `v` stands for `v / SCALE`.
pub const SCALE: i128 = 1_000_000;

/// Largest grid size the integer arithmetic is proved overflow-free for.
pub const NR_MAX: usize = 16_384;

/// Upper safety bound of a density value (`1e20 m^-3` in library units).
pub const DENSITY_MAX: i128 = 1_000_000_000;

/// Bound on the magnitude of a transport coefficient (`1e3` in real units).
pub const COEF_MAX: i128 = 1_000_000_000;

/// Bound on the time step (`1e6 s` in real units).
pub const DT_MAX: i128 = 1_000_000_000_000;

/// Bound on the edge source rate.
pub const SOURCE_MAX: i128 = 1_000_000_000_000;

/// Bound on the accumulation rate threshold.
pub const RATE_MAX: i128 = 1_000_000_000_000;

/// Bound on the absolute accumulation threshold and on the two durations.
pub const THRESHOLD_MAX: i128 = 1_000_000_000_000_000;

/// Bound on the simulation clock; a run must stop before reaching it.
pub const TIME_MAX: i128 = 1_000_000_000_000_000_000_000_000;

/// Bound on the magnitude of a centered density gradient.
pub const GRAD_BOUND: i128 = 10_000_000_000_000;

/// Bound on a turbulent diffusivity value.
pub const TURB_BOUND: i128 = 6_000_000_000;

/// Bound on the magnitude of a face flux.
pub const FLUX_BOUND: i128 = 100_000_000_000_000_000;

pub open spec fn abs_i(x: int) -> int {
    if x < 0 {
        -x
    } else {
        x
    }
}

pub open spec fn max_i(a: int, b: int) -> int {
    if a > b {
        a
    } else {
        b
    }
}

pub open spec fn min_i(a: int, b: int) -> int {
    if a < b {
        a
    } else {
        b
    }
}

pub open spec fn clamp_i(x: int, lo: int, hi: int) -> int {
    if x < lo {
        lo
    } else if x > hi {
        hi
    } else {
        x
    }
}

/// Mathematical (floor) division of a bounded `i128` by a positive divisor.
pub fn div_floor(a: i128, b: i128) -> (q: i128)
    requires
        b > 0,
        a > i128::MIN,
    ensures
        q == a as int / b as int,
{
    if a >= 0 {
        let qu: u128 = (a as u128) / (b as u128);
        proof {
            assert(a as u128 == a as int);
            assert(b as u128 == b as int);
            assert((a as int) * (b as int) >= a as int) by (nonlinear_arith)
                requires
                    a >= 0,
                    b >= 1,
            ;
            lemma_div_is_ordered(a as int, (a as int) * (b as int), b as int);
            lemma_div_multiples_vanish(a as int, b as int);
            assert(qu <= a as u128);
        }
        qu as i128
    } else {
        let am: u128 = (-a) as u128;
        let bm: u128 = b as u128;
        let qu: u128 = (am + bm - 1) / bm;
        proof {
            let amx = am as int;
            let bmx = bm as int;
            let qx = qu as int;
            lemma_fundamental_div_mod(amx + bmx - 1, bmx);
            let r0 = (amx + bmx - 1) % bmx;
            assert(bmx * qx == amx + bmx - 1 - r0);
            assert(qx <= amx) by (nonlinear_arith)
                requires
                    bmx * qx <= amx + bmx - 1,
                    qx >= 0,
                    bmx >= 1,
                    amx >= 1,
            ;
            let r = bmx * qx - amx;
            assert(0 <= r < bmx);
            assert(a as int == (-qx) * bmx + r) by (nonlinear_arith)
                requires
                    a as int == -amx,
                    r == bmx * qx - amx,
            ;
            lemma_fundamental_div_mod_converse(a as int, bmx, -qx, r);
        }
        -(qu as i128)
    }
}

/// Clamps a scalar into `[lo, hi]`.
pub fn clamp(x: i128, lo: i128, hi: i128) -> (r: i128)
    requires
        lo <= hi,
    ensures
        r == clamp_i(x as int, lo as int, hi as int),
{
    if x < lo {
        lo
    } else if x > hi {
        hi
    } else {
        x
    }
}

} // verus!
