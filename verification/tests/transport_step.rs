use stellarator_transport::config::Config;
use stellarator_transport::control::{ConfinementMode, ControlState};
use stellarator_transport::state::SimulationState;

fn standard_state() -> SimulationState {
    let cfg = Config::standard(11, 20, 10_000_000).unwrap_or_else(|_| panic!("valid"));
    SimulationState::new(cfg)
}

#[test]
fn flux_is_zero_at_both_boundary_nodes() {
    let s = standard_state();
    assert_eq!(s.calculate_flux(0), 0);
    assert_eq!(s.calculate_flux(10), 0);
}

#[test]
fn turbulence_is_deterministic() {
    // Identical field state and mode must give identical diffusivities.
    let s = standard_state();
    let first = s.calculate_turbulence_level(5);
    let second = s.calculate_turbulence_level(5);
    assert_eq!(first, second);
}

#[test]
fn turbulence_floor_in_the_suppressed_skin() {
    let cfg = Config::standard(101, 20, 10_000_000).unwrap_or_else(|_| panic!("valid"));
    let s = SimulationState::new(cfg);
    // Node 1 sits at r = 0.01 < 0.02, node 99 at r = 0.99 > 0.98.
    assert_eq!(s.calculate_turbulence_level(1), 50_000);
    assert_eq!(s.calculate_turbulence_level(99), 50_000);
}

#[test]
fn turbulence_suppressed_for_self_similar_profiles() {
    // At r = 0.5 of the standard background both scale lengths equal 0.75,
    // so eta = 1.0 lies in the self-similar band and the factor is 0.3:
    // 1.5 * 0.3 = 0.45.
    let s = standard_state();
    assert_eq!(s.calculate_turbulence_level(5), 450_000);
}

#[test]
fn pulse_enhances_only_the_edge() {
    let mut s = standard_state();
    s.control = ControlState {
        mode: ConfinementMode::Pulse,
        pulse_start_time: Some(0),
        last_pulse_end_time: None,
    };
    // r = 0.8 > 0.7: factor 5.0, so 1.5 * 5.0 = 7.5.
    assert_eq!(s.calculate_turbulence_level(8), 7_500_000);
    // r = 0.5: the core is protected, factor 1.0.
    assert_eq!(s.calculate_turbulence_level(5), 1_500_000);
}

#[test]
fn flux_combines_convection_and_diffusion_exactly() {
    // At node 5 of the standard startup state: n_z = 0.4e18, dn_z/dr = 8e17,
    // D_total = 0.02 + 0.45, v = -0.5, so the flux is
    // -0.5 * 4.0 - 0.47 * 8.0 = -5.76 in units of 1e17 m^-2 s^-1.
    let s = standard_state();
    assert_eq!(s.calculate_flux(5), -5_760_000);
}

#[test]
fn boundary_conditions_hold_after_every_step() {
    let mut s = standard_state();
    for _ in 0..100 {
        s.update();
        let nr = s.config.nr;
        assert_eq!(s.impurity_density[0], s.impurity_density[1]);
        let expected_edge = s.impurity_density[nr - 2] * 300_000 / 1_000_000;
        assert_eq!(s.impurity_density[nr - 1], expected_edge);
    }
}

#[test]
fn field_stays_within_the_safety_range() {
    let mut s = standard_state();
    for _ in 0..200 {
        s.update();
        for k in 0..s.config.nr {
            assert!(s.impurity_density[k] >= 0);
            assert!(s.impurity_density[k] <= 1_000_000_000);
        }
    }
}

#[test]
fn smallest_grid_still_steps_and_keeps_its_boundaries() {
    let cfg = Config::standard(3, 20, 10_000_000).unwrap_or_else(|_| panic!("valid"));
    let mut s = SimulationState::new(cfg);
    for _ in 0..10 {
        s.update();
        assert_eq!(s.impurity_density[0], s.impurity_density[1]);
        assert_eq!(
            s.impurity_density[2],
            s.impurity_density[1] * 300_000 / 1_000_000
        );
    }
}

#[test]
fn clamp_count_is_zero_for_a_stable_step_and_counts_overshoots() {
    let s = standard_state();
    // The standard configuration keeps the diffusion number small: nothing
    // is clamped.
    assert_eq!(s.count_clamped_nodes(), 0);
    // A wildly large time step drives raw values out of range.
    let mut cfg = Config::standard(11, 1_000_000_000_000, 10_000_000)
        .unwrap_or_else(|_| panic!("valid"));
    cfg.source_rate = 1_000_000_000_000;
    let cfg = cfg.validated().unwrap_or_else(|_| panic!("still valid"));
    let wild = SimulationState::new(cfg);
    assert!(wild.count_clamped_nodes() > 0);
}

#[test]
fn edge_source_feeds_the_outermost_interior_nodes() {
    // With convection and diffusion switched off, only the source remains:
    // nodes beyond r = 0.85 gain source_rate * dt, others stay put.
    let mut cfg = Config::standard(11, 1_000, 10_000_000).unwrap_or_else(|_| panic!("valid"));
    cfg.d_neo = 0;
    cfg.d_turb_base = 0;
    cfg.v_neo = 0;
    let cfg = cfg.validated().unwrap_or_else(|_| panic!("still valid"));
    let mut s = SimulationState::new(cfg);
    let before = s.impurity_density.clone();
    s.update();
    // Node 9 sits at r = 0.9 > 0.85: it gains 2.5e17 * 0.001 s.
    assert_eq!(s.impurity_density[9], before[9] + 2_500_000 * 1_000 / 1_000_000);
    // Node 5 sits at r = 0.5: no source, no transport, unchanged.
    assert_eq!(s.impurity_density[5], before[5]);
}
