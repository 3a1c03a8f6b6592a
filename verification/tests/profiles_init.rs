use stellarator_transport::config::Config;
use stellarator_transport::state::SimulationState;

fn standard_state() -> SimulationState {
    let cfg = Config::standard(11, 20, 10_000_000).unwrap_or_else(|_| panic!("valid"));
    SimulationState::new(cfg)
}

#[test]
fn electron_density_endpoints_match_the_parabolic_formula() {
    let s = standard_state();
    // 8e19 m^-3 at the axis, zero at the wall (units of 1e17 m^-3, scale 1e6).
    assert_eq!(s.profiles.electron_density[0], 800_000_000);
    assert_eq!(s.profiles.electron_density[10], 0);
    // Halfway out, 1 - r^2 = 0.75 exactly.
    assert_eq!(s.profiles.electron_density[5], 600_000_000);
}

#[test]
fn electron_temperature_follows_the_same_shape() {
    let s = standard_state();
    assert_eq!(s.profiles.electron_temp[0], 8_000_000);
    assert_eq!(s.profiles.electron_temp[10], 0);
    assert_eq!(s.profiles.electron_temp[5], 6_000_000);
}

#[test]
fn impurity_startup_profile_is_hollow() {
    let s = standard_state();
    // 0.2e18 m^-3 at the axis, 1.0e18 m^-3 at the wall.
    assert_eq!(s.impurity_density[0], 2_000_000);
    assert_eq!(s.impurity_density[10], 10_000_000);
    // 1e18 * (0.2 + 0.8 * 0.25) = 0.4e18 halfway out.
    assert_eq!(s.impurity_density[5], 4_000_000);
}

#[test]
fn initial_state_is_normal_with_clock_at_zero() {
    let s = standard_state();
    assert_eq!(s.time, 0);
    assert_eq!(
        s.control.mode,
        stellarator_transport::control::ConfinementMode::Normal
    );
    assert_eq!(s.control.pulse_start_time, None);
    assert_eq!(s.control.last_pulse_end_time, None);
    assert_eq!(s.log.time.len(), 0);
}
