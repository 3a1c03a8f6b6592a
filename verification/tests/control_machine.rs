use stellarator_transport::config::Config;
use stellarator_transport::control::{
    detect_impurity_accumulation, ConfinementMode, ControlState, TransitionEvent,
};
use stellarator_transport::diagnostics::DiagnosticsLog;

fn cfg() -> Config {
    Config::standard(11, 20, 10_000_000).unwrap_or_else(|_| panic!("valid"))
}

#[test]
fn detector_fires_and_pulse_starts_at_current_time() {
    // Detector reported firing, no prior pulse: the decision must enter Pulse
    // and stamp the start with the current time.
    let c = ControlState::initial();
    let now = 1_000;
    let (c2, ev) = c.control_decision(true, now, &cfg());
    assert_eq!(c2.mode, ConfinementMode::Pulse);
    assert_eq!(c2.pulse_start_time, Some(now));
    assert_eq!(ev, Some(TransitionEvent::PulseStarted { time: now }));
}

#[test]
fn cooldown_blocks_a_new_pulse() {
    // The last pulse ended 0.1 s ago; the cooldown is 0.5 s. Even with the
    // detector firing, the mode must remain Normal.
    let now = 1_000_000;
    let c = ControlState {
        mode: ConfinementMode::Normal,
        pulse_start_time: None,
        last_pulse_end_time: Some(now - 100_000),
    };
    let (c2, ev) = c.control_decision(true, now, &cfg());
    assert_eq!(c2.mode, ConfinementMode::Normal);
    assert_eq!(c2.last_pulse_end_time, Some(now - 100_000));
    assert_eq!(ev, None);
}

#[test]
fn cooldown_elapsed_allows_a_new_pulse() {
    let now = 1_000_000;
    let c = ControlState {
        mode: ConfinementMode::Normal,
        pulse_start_time: None,
        last_pulse_end_time: Some(now - 500_001),
    };
    let (c2, ev) = c.control_decision(true, now, &cfg());
    assert_eq!(c2.mode, ConfinementMode::Pulse);
    assert_eq!(c2.pulse_start_time, Some(now));
    assert_eq!(ev, Some(TransitionEvent::PulseStarted { time: now }));
}

#[test]
fn pulse_ends_once_the_duration_is_exceeded() {
    let c = ControlState {
        mode: ConfinementMode::Pulse,
        pulse_start_time: Some(0),
        last_pulse_end_time: None,
    };
    // Exactly at the duration: still pulsing.
    let (c_stay, ev_stay) = c.control_decision(false, 200_000, &cfg());
    assert_eq!(c_stay.mode, ConfinementMode::Pulse);
    assert_eq!(ev_stay, None);
    // One tick past the duration: back to Normal, end time recorded.
    let (c2, ev) = c.control_decision(false, 200_001, &cfg());
    assert_eq!(c2.mode, ConfinementMode::Normal);
    assert_eq!(c2.pulse_start_time, None);
    assert_eq!(c2.last_pulse_end_time, Some(200_001));
    assert_eq!(ev, Some(TransitionEvent::PulseEnded { time: 200_001 }));
}

#[test]
fn no_detection_means_no_transition() {
    let c = ControlState::initial();
    let (c2, ev) = c.control_decision(false, 42, &cfg());
    assert_eq!(c2.mode, ConfinementMode::Normal);
    assert_eq!(ev, None);
}

#[test]
fn detector_fires_on_absolute_threshold() {
    let log = DiagnosticsLog::new();
    // Threshold is 8e17 m^-3, stored as 8_000_000.
    assert!(detect_impurity_accumulation(8_000_001, &log, &cfg()));
    assert!(!detect_impurity_accumulation(8_000_000, &log, &cfg()));
}

#[test]
fn detector_fires_on_growth_rate() {
    let mut c = cfg();
    c.lookback = 2;
    let mut log = DiagnosticsLog::new();
    // Center density grows by 4e17 m^-3 over 2e-5 s: a rate of 2e22 m^-3/s,
    // far above the 1.5e18 m^-3/s threshold.
    log.record(0, 0, 0, 0);
    log.record(10, 200_000, 0, 0);
    log.record(20, 400_000, 0, 0);
    assert!(detect_impurity_accumulation(0, &log, &c));
    // A flat history does not fire.
    let mut flat = DiagnosticsLog::new();
    flat.record(0, 100, 0, 0);
    flat.record(10, 100, 0, 0);
    flat.record(20, 100, 0, 0);
    assert!(!detect_impurity_accumulation(0, &flat, &c));
}

#[test]
fn detector_needs_more_history_than_the_lookback() {
    let mut c = cfg();
    c.lookback = 2;
    let mut log = DiagnosticsLog::new();
    log.record(0, 0, 0, 0);
    log.record(10, 900_000, 0, 0);
    // Only two rows for a lookback of two: the rate branch is skipped.
    assert!(!detect_impurity_accumulation(0, &log, &c));
}
