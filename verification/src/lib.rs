//! A 1-D radial impurity-transport simulator for a magnetically confined
//! plasma column, with a hysteresis/cooldown feedback controller that
//! periodically boosts edge turbulence to flush impurities from the center.
//!
//! All physical scalars are fixed-point integers (see [`fixed`]): a value `v`
//! stands for the real number `v / SCALE`, and densities are expressed in
//! units of `1e17 m^-3`, so that the safety clamp `1e20 m^-3` is the integer
//! `1000 * SCALE`.

pub mod config;
pub mod control;
pub mod diagnostics;
pub mod fixed;
pub mod flux;
pub mod grid;
pub mod profiles;
pub mod state;
pub mod transport;
pub mod turbulence;
