use stellarator_transport::config::Config;
use stellarator_transport::control::{ConfinementMode, ControlState, TransitionEvent};
use stellarator_transport::state::SimulationState;

fn state_with(nr: usize, dt: i128) -> SimulationState {
    let cfg = Config::standard(nr, dt, 10_000_000).unwrap_or_else(|_| panic!("valid"));
    SimulationState::new(cfg)
}

#[test]
fn update_advances_the_clock_and_logs_one_row() {
    let mut s = state_with(11, 20);
    let ev = s.update();
    assert_eq!(ev, None);
    assert_eq!(s.time, 20);
    assert_eq!(s.log.len(), 1);
    // The row carries the time the step started at and the post-step field.
    assert_eq!(s.log.time[0], 0);
    assert_eq!(s.log.center_impurity[0], s.impurity_density[0]);
    assert_eq!(s.log.edge_impurity[0], s.impurity_density[10]);
}

#[test]
fn log_grows_one_row_per_step_in_chronological_order() {
    let mut s = state_with(11, 20);
    for _ in 0..50 {
        s.update();
    }
    assert_eq!(s.log.len(), 50);
    for k in 0..50 {
        assert_eq!(s.log.time[k], 20 * k as i128);
    }
}

#[test]
fn forced_center_accumulation_triggers_a_pulse() {
    // Center density pushed above the absolute threshold with no prior
    // pulse: the decision of the very next step must enter Pulse and stamp
    // the start with the step's time.
    let mut s = state_with(11, 20);
    s.impurity_density[0] = 9_000_000;
    let ev = s.update();
    assert_eq!(s.control.mode, ConfinementMode::Pulse);
    assert_eq!(s.control.pulse_start_time, Some(0));
    assert_eq!(ev, Some(TransitionEvent::PulseStarted { time: 0 }));
}

#[test]
fn cooldown_blocks_a_pulse_during_a_run() {
    // The last pulse ended 0.1 s ago against a 0.5 s cooldown: even with the
    // detector firing, the mode must remain Normal.
    let mut s = state_with(11, 20);
    s.time = 1_000_000;
    s.control = ControlState {
        mode: ConfinementMode::Normal,
        pulse_start_time: None,
        last_pulse_end_time: Some(900_000),
    };
    s.impurity_density[0] = 9_000_000;
    let ev = s.update();
    assert_eq!(s.control.mode, ConfinementMode::Normal);
    assert_eq!(ev, None);
}

#[test]
fn pulse_ends_after_its_duration_during_a_run() {
    // With dt = 0.3 s and a 0.2 s pulse: the first step (at t = 0) keeps the
    // pulse, the second (at t = 0.3 s) ends it and records the end time.
    let mut s = state_with(11, 300_000);
    s.control = ControlState {
        mode: ConfinementMode::Pulse,
        pulse_start_time: Some(0),
        last_pulse_end_time: None,
    };
    let ev1 = s.update();
    assert_eq!(ev1, None);
    assert_eq!(s.control.mode, ConfinementMode::Pulse);
    let ev2 = s.update();
    assert_eq!(ev2, Some(TransitionEvent::PulseEnded { time: 300_000 }));
    assert_eq!(s.control.mode, ConfinementMode::Normal);
    assert_eq!(s.control.pulse_start_time, None);
    assert_eq!(s.control.last_pulse_end_time, Some(300_000));
}

#[test]
fn export_after_a_run_has_one_line_per_step_plus_header() {
    let mut s = state_with(11, 20);
    for _ in 0..5 {
        s.update();
    }
    let out = s.log.export_csv();
    let text = String::from_utf8(out).unwrap_or_else(|_| panic!("ASCII"));
    assert_eq!(text.matches('\n').count(), 6);
}
