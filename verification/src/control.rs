//! The confinement-mode state machine: `Normal` and `Pulse`, with an
//! accumulation detector, a pulse duration timer, and a cooldown gate
//! between pulses.
//!
//! The transition function is pure: it maps the old control state, the
//! detector verdict and the current time to the new state plus an optional
//! transition event for an outside notification collaborator to consume.

use crate::config::Config;
use crate::diagnostics::DiagnosticsLog;
use crate::fixed::{DENSITY_MAX, RATE_MAX, SCALE, TIME_MAX};
use vstd::prelude::*;

verus! {

/// The controller's regime: nominal confinement, or a turbulence pulse that
/// enhances edge transport to flush impurities.
#[derive(Clone, Copy, Debug, PartialEq, Eq)]
pub enum ConfinementMode {
    Normal,
    Pulse,
}

/// A mode change, reported with the time it happened at.
#[derive(Clone, Copy, Debug, PartialEq, Eq)]
pub enum TransitionEvent {
    PulseStarted { time: i128 },
    PulseEnded { time: i128 },
}

/// The controller's state between steps.
#[derive(Clone, Copy, Debug, PartialEq, Eq)]
pub struct ControlState {
    pub mode: ConfinementMode,
    /// When the running pulse began; present exactly while in `Pulse`.
    pub pulse_start_time: Option<i128>,
    /// When the most recent pulse ended; `None` before the first pulse.
    pub last_pulse_end_time: Option<i128>,
}

impl ControlState {
    /// The structural invariant: a pulse start time is recorded if and only
    /// if the machine is in `Pulse`.
    pub open spec fn wf(self) -> bool {
        self.mode is Pulse <==> self.pulse_start_time is Some
    }

    /// Both recorded times, where present, are plausible clock readings.
    pub open spec fn times_within(self, now: i128) -> bool {
        &&& self.pulse_start_time is Some ==> 0 <= self.pulse_start_time->Some_0 <= now
        &&& self.last_pulse_end_time is Some ==> 0 <= self.last_pulse_end_time->Some_0 <= now
    }

    /// The initial state: `Normal`, no pulse running, none ended yet.
    pub fn initial() -> (s: ControlState)
        ensures
            s == initial_control_state(),
            s.wf(),
    {
        ControlState { mode: ConfinementMode::Normal, pulse_start_time: None, last_pulse_end_time: None }
    }

    /// Applies one control decision, returning the new state and the event
    /// to report, exactly as `spec_transition` prescribes.
    pub fn control_decision(&self, detected: bool, now: i128, cfg: &Config) -> (r: (
        ControlState,
        Option<TransitionEvent>,
    ))
        requires
            cfg.valid(),
            0 <= now <= TIME_MAX,
            self.times_within(now),
        ensures
            r == spec_transition(*self, detected, now, *cfg),
    {
        match self.mode {
            ConfinementMode::Normal => {
                let can_pulse: bool = match self.last_pulse_end_time {
                    Some(last_end) => now - last_end > cfg.cooldown_duration,
                    None => true,
                };
                if detected && can_pulse {
                    (
                        ControlState {
                            mode: ConfinementMode::Pulse,
                            pulse_start_time: Some(now),
                            last_pulse_end_time: self.last_pulse_end_time,
                        },
                        Some(TransitionEvent::PulseStarted { time: now }),
                    )
                } else {
                    (*self, None)
                }
            },
            ConfinementMode::Pulse => {
                match self.pulse_start_time {
                    Some(start) => {
                        if now - start > cfg.pulse_duration {
                            (
                                ControlState {
                                    mode: ConfinementMode::Normal,
                                    pulse_start_time: None,
                                    last_pulse_end_time: Some(now),
                                },
                                Some(TransitionEvent::PulseEnded { time: now }),
                            )
                        } else {
                            (*self, None)
                        }
                    },
                    None => (*self, None),
                }
            },
        }
    }
}

/// The state the machine starts a run in.
pub open spec fn initial_control_state() -> ControlState {
    ControlState { mode: ConfinementMode::Normal, pulse_start_time: None, last_pulse_end_time: None }
}

/// Whether a new pulse is allowed: no pulse has ended yet, or more than the
/// cooldown has passed since the last one ended.
pub open spec fn spec_can_pulse(s: ControlState, now: i128, cooldown: i128) -> bool {
    match s.last_pulse_end_time {
        Option::None => true,
        Option::Some(last_end) => now - last_end > cooldown,
    }
}

/// One control decision. In `Normal`, enter `Pulse` exactly when the
/// detector fired and the cooldown gate allows it, recording the start time.
/// In `Pulse`, return to `Normal` exactly when the pulse has outlived the
/// configured duration, clearing the start time and recording the end time.
/// Anything else leaves the state unchanged and reports nothing.
pub open spec fn spec_transition(s: ControlState, detected: bool, now: i128, cfg: Config) -> (
    ControlState,
    Option<TransitionEvent>,
) {
    match s.mode {
        ConfinementMode::Normal => {
            if detected && spec_can_pulse(s, now, cfg.cooldown_duration) {
                (
                    ControlState {
                        mode: ConfinementMode::Pulse,
                        pulse_start_time: Some(now),
                        last_pulse_end_time: s.last_pulse_end_time,
                    },
                    Some(TransitionEvent::PulseStarted { time: now }),
                )
            } else {
                (s, None)
            }
        },
        ConfinementMode::Pulse => {
            match s.pulse_start_time {
                Option::Some(start) => {
                    if now - start > cfg.pulse_duration {
                        (
                            ControlState {
                                mode: ConfinementMode::Normal,
                                pulse_start_time: None,
                                last_pulse_end_time: Some(now),
                            },
                            Some(TransitionEvent::PulseEnded { time: now }),
                        )
                    } else {
                        (s, None)
                    }
                },
                Option::None => (s, None),
            }
        },
    }
}

/// The accumulation detector: fires when the center density exceeds the
/// absolute threshold, or when more than `lookback` rows are logged and the
/// center density grew faster than the rate threshold between the row
/// `lookback` steps back and the most recent row. The rate comparison
/// `(dn / dt) > rate` is evaluated exactly as `dn * SCALE > rate * dt`,
/// which agrees with it whenever the clock column is increasing.
pub open spec fn spec_detect(
    center_now: i128,
    centers: Seq<i128>,
    times: Seq<i128>,
    cfg: Config,
) -> bool {
    ||| center_now > cfg.accum_abs_threshold
    ||| (centers.len() > cfg.lookback && {
        let last = centers.len() - 1;
        let prev = last - cfg.lookback;
        (centers[last as int] - centers[prev as int]) * SCALE > cfg.accum_rate_threshold * (
        times[last as int] - times[prev as int])
    })
}

/// Evaluates the accumulation detector on the current center density and the
/// log recorded so far.
pub fn detect_impurity_accumulation(center_now: i128, log: &DiagnosticsLog, cfg: &Config) -> (r:
    bool)
    requires
        cfg.valid(),
        log.wf(),
        -DENSITY_MAX <= center_now <= DENSITY_MAX,
        forall|k: int|
            0 <= k < log.center_impurity@.len() ==> -DENSITY_MAX
                <= #[trigger] log.center_impurity@[k] <= DENSITY_MAX,
        forall|k: int| 0 <= k < log.time@.len() ==> 0 <= #[trigger] log.time@[k] <= TIME_MAX,
    ensures
        r == spec_detect(center_now, log.center_impurity@, log.time@, *cfg),
{
    if center_now > cfg.accum_abs_threshold {
        return true;
    }
    let n: usize = log.center_impurity.len();
    if n > cfg.lookback {
        let last: usize = n - 1;
        let prev: usize = last - cfg.lookback;
        let dc: i128 = log.center_impurity[last] - log.center_impurity[prev];
        let dt: i128 = log.time[last] - log.time[prev];
        proof {
            assert(-RATE_MAX * TIME_MAX <= cfg.accum_rate_threshold * dt <= RATE_MAX * TIME_MAX)
                by (nonlinear_arith)
                requires
                    0 <= cfg.accum_rate_threshold <= RATE_MAX,
                    -TIME_MAX <= dt <= TIME_MAX,
            ;
        }
        dc * SCALE > cfg.accum_rate_threshold * dt
    } else {
        false
    }
}

/// The machine is never in `Pulse` beyond the configured duration: after any
/// decision taken at time `now`, a state still (or newly) in `Pulse` has a
/// start time at most `pulse_duration` before `now`.
pub proof fn lemma_pulse_duration_respected(
    s: ControlState,
    detected: bool,
    now: i128,
    cfg: Config,
)
    requires
        s.wf(),
        cfg.valid(),
    ensures
        ({
            let s2 = spec_transition(s, detected, now, cfg).0;
            s2.mode is Pulse ==> now - s2.pulse_start_time->Some_0 <= cfg.pulse_duration
        }),
{
}

/// A decision never breaks the structural invariant, and the recorded times
/// stay plausible.
pub proof fn lemma_transition_preserves_wf(
    s: ControlState,
    detected: bool,
    now: i128,
    cfg: Config,
)
    requires
        s.wf(),
        s.times_within(now),
        0 <= now,
    ensures
        spec_transition(s, detected, now, cfg).0.wf(),
        spec_transition(s, detected, now, cfg).0.times_within(now),
{
}

/// One recorded input to the machine: the clock reading at the step and the
/// detector's verdict for it.
pub struct ControlInput {
    pub time: i128,
    pub detected: bool,
}

/// The state after the first `m` of the recorded inputs have been applied.
pub open spec fn machine_state(
    cfg: Config,
    s0: ControlState,
    inputs: Seq<ControlInput>,
    m: int,
) -> ControlState
    decreases m,
{
    if m <= 0 {
        s0
    } else {
        spec_transition(
            machine_state(cfg, s0, inputs, m - 1),
            inputs[m - 1].detected,
            inputs[m - 1].time,
            cfg,
        ).0
    }
}

/// While the machine sits in `Normal` without entering a pulse, the recorded
/// last pulse end does not change.
proof fn lemma_last_end_stable(
    cfg: Config,
    s0: ControlState,
    inputs: Seq<ControlInput>,
    k: int,
    m: int,
)
    requires
        0 <= k <= m <= inputs.len(),
        forall|p: int| k <= p <= m ==> #[trigger] machine_state(cfg, s0, inputs, p).mode is Normal,
    ensures
        machine_state(cfg, s0, inputs, m).last_pulse_end_time == machine_state(
            cfg,
            s0,
            inputs,
            k,
        ).last_pulse_end_time,
    decreases m - k,
{
    if m > k {
        lemma_last_end_stable(cfg, s0, inputs, k, m - 1);
        let sp = machine_state(cfg, s0, inputs, m - 1);
        let sm = machine_state(cfg, s0, inputs, m);
        assert(sp.mode is Normal);
        assert(sm.mode is Normal);
        assert(sm == spec_transition(sp, inputs[m - 1].detected, inputs[m - 1].time, cfg).0);
    }
}

/// Cooldown is respected along any run of the machine: if a pulse ends at
/// step `k` (at time `inputs[k].time`) and the next pulse begins at step `j`
/// (at time `inputs[j].time`), with the machine sitting in `Normal` for every
/// step in between, then more than the configured cooldown separates the two.
pub proof fn lemma_cooldown_between_pulses(
    cfg: Config,
    s0: ControlState,
    inputs: Seq<ControlInput>,
    k: int,
    j: int,
)
    requires
        0 <= k < j < inputs.len(),
        machine_state(cfg, s0, inputs, k).mode is Pulse,
        forall|p: int|
            k < p <= j ==> #[trigger] machine_state(cfg, s0, inputs, p).mode is Normal,
        machine_state(cfg, s0, inputs, j + 1).mode is Pulse,
    ensures
        inputs[j].time - inputs[k].time > cfg.cooldown_duration,
{
    let sk = machine_state(cfg, s0, inputs, k);
    let sk1 = machine_state(cfg, s0, inputs, k + 1);
    assert(sk1 == spec_transition(sk, inputs[k].detected, inputs[k].time, cfg).0);
    assert(sk1.mode is Normal);
    assert(sk1.last_pulse_end_time == Some(inputs[k].time));
    lemma_last_end_stable(cfg, s0, inputs, k + 1, j);
    let sj = machine_state(cfg, s0, inputs, j);
    assert(sj.last_pulse_end_time == Some(inputs[k].time));
    let sj1 = machine_state(cfg, s0, inputs, j + 1);
    assert(sj1 == spec_transition(sj, inputs[j].detected, inputs[j].time, cfg).0);
}

} // verus!
