//! The immutable per-run configuration and its validation.

use crate::fixed::{
    COEF_MAX, DT_MAX, NR_MAX, RATE_MAX, SCALE, SOURCE_MAX, THRESHOLD_MAX,
};
use vstd::prelude::*;

verus! {

/// Why a configuration was rejected at construction.
#[derive(Clone, Copy, Debug, PartialEq, Eq)]
pub enum ConfigError {
    /// Fewer than three grid nodes: the grid spacing would be undefined.
    GridTooSmall,
    /// A non-positive time step.
    NonPositiveDt,
    /// A non-positive total run duration.
    NonPositiveDuration,
    /// A parameter lies outside the range the integer arithmetic supports.
    OutOfRange,
}

/// All tunable parameters of a run, fixed before the first step.
///
/// Scalars are fixed-point (`SCALE` times the real value); densities are in
/// units of `1e17 m^-3`.
#[derive(Clone, Copy, Debug, PartialEq, Eq)]
pub struct Config {
    /// Number of radial grid nodes.
    pub nr: usize,
    /// Time step per call of `update`.
    pub dt: i128,
    /// Total run duration; the driver steps until the clock reaches it.
    pub run_duration: i128,
    /// Neoclassical diffusivity.
    pub d_neo: i128,
    /// Base turbulent diffusivity, scaled by the closure model's factor.
    pub d_turb_base: i128,
    /// Neoclassical convection velocity (negative means inward pinch).
    pub v_neo: i128,
    /// How long a turbulence pulse lasts.
    pub pulse_duration: i128,
    /// Minimum interval after a pulse ends before the next may begin.
    pub cooldown_duration: i128,
    /// Center density above which accumulation is detected outright.
    pub accum_abs_threshold: i128,
    /// Center-density growth rate above which accumulation is detected.
    pub accum_rate_threshold: i128,
    /// How many log entries back the growth rate is measured over.
    pub lookback: usize,
    /// Impurity injection rate applied outside `source_r_threshold`.
    pub source_rate: i128,
    /// Normalized radius beyond which the edge source is applied.
    pub source_r_threshold: i128,
    /// Fraction of the inward neighbor kept at the outer boundary node.
    pub edge_reflection: i128,
}

impl Config {
    /// The ranges under which every arithmetic step of the model is proved
    /// free of overflow. Machine limits only: no physical run comes near them.
    pub open spec fn in_machine_range(self) -> bool {
        &&& self.nr <= NR_MAX
        &&& self.dt <= DT_MAX
        &&& self.run_duration <= THRESHOLD_MAX
        &&& 0 <= self.d_neo <= COEF_MAX
        &&& 0 <= self.d_turb_base <= COEF_MAX
        &&& -COEF_MAX <= self.v_neo <= COEF_MAX
        &&& 0 <= self.pulse_duration <= THRESHOLD_MAX
        &&& 0 <= self.cooldown_duration <= THRESHOLD_MAX
        &&& 0 <= self.accum_abs_threshold <= THRESHOLD_MAX
        &&& 0 <= self.accum_rate_threshold <= RATE_MAX
        &&& 1 <= self.lookback <= NR_MAX
        &&& 0 <= self.source_rate <= SOURCE_MAX
        &&& 0 <= self.source_r_threshold <= SCALE
        &&& 0 <= self.edge_reflection <= SCALE
    }

    /// A configuration the simulation may run with.
    pub open spec fn valid(self) -> bool {
        &&& self.nr >= 3
        &&& self.dt > 0
        &&& self.run_duration > 0
        &&& self.in_machine_range()
    }

    /// Validates a candidate configuration, rejecting exactly the inputs the
    /// simulation must not run with: too small a grid, a non-positive time
    /// step or duration, or a parameter outside the supported machine range.
    pub fn validated(self) -> (r: Result<Config, ConfigError>)
        ensures
            r is Ok <==> self.valid(),
            r is Ok ==> r->Ok_0 == self,
            self.nr < 3 ==> r == Result::<Config, ConfigError>::Err(ConfigError::GridTooSmall),
            self.nr >= 3 && self.dt <= 0 ==> r == Result::<Config, ConfigError>::Err(
                ConfigError::NonPositiveDt,
            ),
            self.nr >= 3 && self.dt > 0 && self.run_duration <= 0 ==> r == Result::<
                Config,
                ConfigError,
            >::Err(ConfigError::NonPositiveDuration),
            self.nr >= 3 && self.dt > 0 && self.run_duration > 0 && !self.in_machine_range()
                ==> r == Result::<Config, ConfigError>::Err(ConfigError::OutOfRange),
    {
        if self.nr < 3 {
            Err(ConfigError::GridTooSmall)
        } else if self.dt <= 0 {
            Err(ConfigError::NonPositiveDt)
        } else if self.run_duration <= 0 {
            Err(ConfigError::NonPositiveDuration)
        } else if !(self.nr <= NR_MAX && self.dt <= DT_MAX && self.run_duration <= THRESHOLD_MAX
            && 0 <= self.d_neo && self.d_neo <= COEF_MAX && 0 <= self.d_turb_base
            && self.d_turb_base <= COEF_MAX && -COEF_MAX <= self.v_neo && self.v_neo <= COEF_MAX
            && 0 <= self.pulse_duration && self.pulse_duration <= THRESHOLD_MAX
            && 0 <= self.cooldown_duration && self.cooldown_duration <= THRESHOLD_MAX
            && 0 <= self.accum_abs_threshold && self.accum_abs_threshold <= THRESHOLD_MAX
            && 0 <= self.accum_rate_threshold && self.accum_rate_threshold <= RATE_MAX
            && 1 <= self.lookback && self.lookback <= NR_MAX && 0 <= self.source_rate
            && self.source_rate <= SOURCE_MAX && 0 <= self.source_r_threshold
            && self.source_r_threshold <= SCALE && 0 <= self.edge_reflection
            && self.edge_reflection <= SCALE) {
            Err(ConfigError::OutOfRange)
        } else {
            Ok(self)
        }
    }

    /// The reference parameter set of the tuned model: neoclassical
    /// diffusivity `0.02`, base turbulent diffusivity `1.5`, inward pinch
    /// `-0.5`, a `0.2 s` pulse with a `0.5 s` cooldown, detection at
    /// `8e17 m^-3` center density or `1.5e18 m^-3/s` growth over the last
    /// 100 entries, edge fueling of `2.5e17 m^-3/s` beyond radius `0.85`,
    /// and an outer boundary keeping `0.3` of its inward neighbor.
    pub fn standard(nr: usize, dt: i128, run_duration: i128) -> (r: Result<Config, ConfigError>)
        ensures
            r is Ok ==> {
                let c = r->Ok_0;
                &&& c.valid()
                &&& c.nr == nr
                &&& c.dt == dt
                &&& c.run_duration == run_duration
                &&& c.d_neo == 20_000
                &&& c.d_turb_base == 1_500_000
                &&& c.v_neo == -500_000
                &&& c.pulse_duration == 200_000
                &&& c.cooldown_duration == 500_000
                &&& c.accum_abs_threshold == 8_000_000
                &&& c.accum_rate_threshold == 15_000_000
                &&& c.lookback == 100
                &&& c.source_rate == 2_500_000
                &&& c.source_r_threshold == 850_000
                &&& c.edge_reflection == 300_000
            },
            r is Err <==> !(3 <= nr <= NR_MAX && 0 < dt <= DT_MAX && 0 < run_duration
                <= THRESHOLD_MAX),
    {
        Config {
            nr,
            dt,
            run_duration,
            d_neo: 20_000,
            d_turb_base: 1_500_000,
            v_neo: -500_000,
            pulse_duration: 200_000,
            cooldown_duration: 500_000,
            accum_abs_threshold: 8_000_000,
            accum_rate_threshold: 15_000_000,
            lookback: 100,
            source_rate: 2_500_000,
            source_r_threshold: 850_000,
            edge_reflection: 300_000,
        }.validated()
    }
}

} // verus!
