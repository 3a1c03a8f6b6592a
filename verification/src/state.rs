//! The simulation state and the step orchestrator: one `update` call runs the
//! control decision, the transport step, the diagnostics append, and the
//! clock advance, in exactly that order.

use crate::config::Config;
use crate::control::{
    detect_impurity_accumulation, initial_control_state, spec_detect, spec_transition,
    ControlState, TransitionEvent,
};
use crate::diagnostics::DiagnosticsLog;
use crate::fixed::{DENSITY_MAX, SCALE, TIME_MAX, TURB_BOUND};
use crate::flux::{calculate_flux, spec_flux};
use crate::grid::RadialGrid;
use crate::profiles::{
    hollow_at, BackgroundProfiles, IMPURITY_CENTER_INIT, IMPURITY_EDGE_RISE,
};
use crate::transport::{solve_transport_equation, spec_new_node};
use crate::turbulence::{spec_turbulence, turbulence_level};
use vstd::prelude::*;

verus! {

/// The whole mutable state of a run: the fixed grid, background and
/// configuration, the impurity field, the controller, the clock and the log.
pub struct SimulationState {
    pub config: Config,
    pub grid: RadialGrid,
    pub profiles: BackgroundProfiles,
    pub impurity_density: Vec<i128>,
    pub control: ControlState,
    pub time: i128,
    pub log: DiagnosticsLog,
}

impl SimulationState {
    /// The invariant every step preserves: a valid configuration, matching
    /// grid, well-formed background, an impurity field of one bounded value
    /// per node, a well-formed controller whose recorded times do not lie in
    /// the future, a clock within range, and a log of bounded rows in strict
    /// chronological order, all earlier than the clock.
    pub open spec fn wf(self) -> bool {
        &&& self.config.valid()
        &&& self.grid.nr == self.config.nr
        &&& self.grid.valid()
        &&& self.profiles.wf(self.grid.nr as int)
        &&& self.impurity_density@.len() == self.grid.nr
        &&& forall|k: int|
            0 <= k < self.impurity_density@.len() ==> 0 <= #[trigger] self.impurity_density@[k]
                <= DENSITY_MAX
        &&& self.control.wf()
        &&& self.control.times_within(self.time)
        &&& 0 <= self.time <= TIME_MAX
        &&& self.log.wf()
        &&& forall|k: int|
            0 <= k < self.log.center_impurity@.len() ==> 0
                <= #[trigger] self.log.center_impurity@[k] <= DENSITY_MAX
        &&& forall|k: int|
            0 <= k < self.log.edge_impurity@.len() ==> 0 <= #[trigger] self.log.edge_impurity@[k]
                <= DENSITY_MAX
        &&& forall|k: int|
            0 <= k < self.log.edge_turbulence@.len() ==> 0
                <= #[trigger] self.log.edge_turbulence@[k] <= TURB_BOUND
        &&& forall|k: int|
            0 <= k < self.log.time@.len() ==> 0 <= #[trigger] self.log.time@[k] < self.time
        &&& forall|i: int, j: int|
            0 <= i < j < self.log.time@.len() ==> #[trigger] self.log.time@[i]
                < #[trigger] self.log.time@[j]
    }

    /// Builds the initial state for a validated configuration: the standard
    /// parabolic background, the hollow startup impurity profile
    /// `1e18 * (0.2 + 0.8 r^2)`, the controller in `Normal`, the clock at
    /// zero and an empty log.
    pub fn new(config: Config) -> (s: SimulationState)
        requires
            config.valid(),
        ensures
            s.wf(),
            s.config == config,
            s.time == 0,
            s.control == initial_control_state(),
            s.log.time@.len() == 0,
            s.impurity_density@.len() == config.nr,
            forall|i: int|
                0 <= i < config.nr ==> #[trigger] s.impurity_density@[i]
                    == crate::profiles::hollow(
                    IMPURITY_CENTER_INIT as int,
                    IMPURITY_EDGE_RISE as int,
                    config.nr as int,
                    i,
                ),
            forall|i: int|
                0 <= i < config.nr ==> #[trigger] s.profiles.electron_density@[i]
                    == crate::profiles::parabolic(
                    crate::profiles::ELECTRON_DENSITY_PEAK as int,
                    config.nr as int,
                    i,
                ),
            forall|i: int|
                0 <= i < config.nr ==> #[trigger] s.profiles.electron_temp@[i]
                    == crate::profiles::parabolic(
                    crate::profiles::ELECTRON_TEMP_PEAK as int,
                    config.nr as int,
                    i,
                ),
    {
        let grid = RadialGrid::new(config.nr);
        let profiles = BackgroundProfiles::initialize(config.nr);
        let mut impurity: Vec<i128> = Vec::new();
        let mut i: usize = 0;
        while i < config.nr
            invariant
                config.valid(),
                i <= config.nr,
                impurity@.len() == i,
                forall|k: int|
                    0 <= k < i ==> #[trigger] impurity@[k] == crate::profiles::hollow(
                        IMPURITY_CENTER_INIT as int,
                        IMPURITY_EDGE_RISE as int,
                        config.nr as int,
                        k,
                    ),
                forall|k: int| 0 <= k < i ==> 0 <= #[trigger] impurity@[k] <= DENSITY_MAX,
            decreases config.nr - i,
        {
            let v: i128 = hollow_at(IMPURITY_CENTER_INIT, IMPURITY_EDGE_RISE, config.nr, i);
            impurity.push(v);
            i = i + 1;
        }
        SimulationState {
            config,
            grid,
            profiles,
            impurity_density: impurity,
            control: ControlState::initial(),
            time: 0,
            log: DiagnosticsLog::new(),
        }
    }

    /// The turbulent diffusivity the closure model gives at interior node `i`
    /// under the mode currently in force.
    pub fn calculate_turbulence_level(&self, i: usize) -> (turb: i128)
        requires
            self.wf(),
            1 <= i <= self.grid.nr - 2,
        ensures
            turb == spec_turbulence(
                self.profiles.electron_density@,
                self.profiles.electron_temp@,
                self.grid.nr as int,
                i as int,
                self.control.mode,
                self.config.d_turb_base,
            ),
    {
        turbulence_level(&self.profiles, &self.grid, self.control.mode, self.config.d_turb_base, i)
    }

    /// The impurity face flux at node `i` under the mode currently in force.
    pub fn calculate_flux(&self, i: usize) -> (f: i128)
        requires
            self.wf(),
            i < self.grid.nr,
        ensures
            f == spec_flux(
                self.impurity_density@,
                self.profiles.electron_density@,
                self.profiles.electron_temp@,
                self.grid.nr as int,
                i as int,
                self.control.mode,
                self.config,
            ),
    {
        calculate_flux(
            &self.impurity_density,
            &self.profiles,
            &self.grid,
            self.control.mode,
            &self.config,
            i,
        )
    }

    /// How many interior nodes the safety clamp would correct if the field
    /// were stepped now under the current mode: zero while the scheme is
    /// stable, so a growing count flags a too-large diffusion number.
    pub fn count_clamped_nodes(&self) -> (n: usize)
        requires
            self.wf(),
        ensures
            n == crate::transport::spec_clamp_count(
                self.impurity_density@,
                self.profiles.electron_density@,
                self.profiles.electron_temp@,
                self.grid.nr as int,
                self.grid.nr - 1,
                self.control.mode,
                self.config,
            ),
    {
        crate::transport::count_clamped_nodes(
            &self.impurity_density,
            &self.profiles,
            &self.grid,
            self.control.mode,
            &self.config,
        )
    }

    /// The accumulation detector on the current center density and log.
    pub fn detect_impurity_accumulation(&self) -> (r: bool)
        requires
            self.wf(),
        ensures
            r == spec_detect(
                self.impurity_density@[0],
                self.log.center_impurity@,
                self.log.time@,
                self.config,
            ),
    {
        detect_impurity_accumulation(self.impurity_density[0], &self.log, &self.config)
    }

    /// One full orchestrator cycle, in fixed order: (1) the control decision
    /// on the pre-step field and log, (2) the transport step under the mode
    /// just decided, (3) one diagnostics row from the post-step field and
    /// that same mode, (4) the clock advance by `dt`. Returns the transition
    /// event of step (1), if any, for the caller to report.
    pub fn update(&mut self) -> (ev: Option<TransitionEvent>)
        requires
            old(self).wf(),
            old(self).time + old(self).config.dt <= TIME_MAX,
        ensures
            final (self).wf(),
            final (self).config == old(self).config,
            final (self).grid == old(self).grid,
            final (self).profiles == old(self).profiles,
            ({
                let detected = spec_detect(
                    old(self).impurity_density@[0],
                    old(self).log.center_impurity@,
                    old(self).log.time@,
                    old(self).config,
                );
                let decision = spec_transition(
                    old(self).control,
                    detected,
                    old(self).time,
                    old(self).config,
                );
                &&& final (self).control == decision.0
                &&& ev == decision.1
                &&& final (self).impurity_density@.len() == old(self).grid.nr
                &&& forall|k: int|
                    0 <= k < old(self).grid.nr ==> #[trigger] final (self).impurity_density@[k]
                        == spec_new_node(
                        old(self).impurity_density@,
                        old(self).profiles.electron_density@,
                        old(self).profiles.electron_temp@,
                        old(self).grid.nr as int,
                        k,
                        decision.0.mode,
                        old(self).config,
                    )
                &&& final (self).log.edge_turbulence@ == old(self).log.edge_turbulence@.push(
                    spec_turbulence(
                        old(self).profiles.electron_density@,
                        old(self).profiles.electron_temp@,
                        old(self).grid.nr as int,
                        old(self).grid.nr - 2,
                        decision.0.mode,
                        old(self).config.d_turb_base,
                    ) as i128,
                )
            }),
            forall|k: int|
                0 <= k < final (self).impurity_density@.len() ==> 0 <= #[trigger] final (
                self).impurity_density@[k] <= DENSITY_MAX,
            final (self).impurity_density@[0] == final (self).impurity_density@[1],
            final (self).impurity_density@[old(self).grid.nr - 1] == old(
                self,
            ).config.edge_reflection * final (self).impurity_density@[old(self).grid.nr - 2]
                / SCALE as int,
            final (self).log.time@ == old(self).log.time@.push(old(self).time),
            final (self).log.center_impurity@ == old(self).log.center_impurity@.push(
                final (self).impurity_density@[0],
            ),
            final (self).log.edge_impurity@ == old(self).log.edge_impurity@.push(
                final (self).impurity_density@[old(self).grid.nr - 1],
            ),
            final (self).time == old(self).time + old(self).config.dt,
    {
        let center: i128 = self.impurity_density[0];
        let detected: bool = detect_impurity_accumulation(center, &self.log, &self.config);
        let (control2, ev): (ControlState, Option<TransitionEvent>) =
            self.control.control_decision(detected, self.time, &self.config);
        proof {
            crate::control::lemma_transition_preserves_wf(
                self.control,
                detected,
                self.time,
                self.config,
            );
        }
        self.control = control2;
        let new_field: Vec<i128> = solve_transport_equation(
            &self.impurity_density,
            &self.profiles,
            &self.grid,
            self.control.mode,
            &self.config,
        );
        self.impurity_density = new_field;
        let turb_edge: i128 = turbulence_level(
            &self.profiles,
            &self.grid,
            self.control.mode,
            self.config.d_turb_base,
            self.grid.nr - 2,
        );
        let center_new: i128 = self.impurity_density[0];
        let edge_new: i128 = self.impurity_density[self.grid.nr - 1];
        self.log.record(self.time, center_new, edge_new, turb_edge);
        self.time = self.time + self.config.dt;
        ev
    }
}

} // verus!
