use stellarator_transport::config::{Config, ConfigError};

fn base_config() -> Config {
    match Config::standard(11, 20, 10_000_000) {
        Ok(c) => c,
        Err(_) => panic!("the reference configuration must validate"),
    }
}

#[test]
fn accepts_standard_configuration() {
    let c = base_config();
    assert_eq!(c.nr, 11);
    assert_eq!(c.dt, 20);
    assert_eq!(c.run_duration, 10_000_000);
    assert_eq!(c.d_neo, 20_000);
    assert_eq!(c.d_turb_base, 1_500_000);
    assert_eq!(c.v_neo, -500_000);
    assert_eq!(c.pulse_duration, 200_000);
    assert_eq!(c.cooldown_duration, 500_000);
    assert_eq!(c.accum_abs_threshold, 8_000_000);
    assert_eq!(c.accum_rate_threshold, 15_000_000);
    assert_eq!(c.lookback, 100);
    assert_eq!(c.source_rate, 2_500_000);
    assert_eq!(c.source_r_threshold, 850_000);
    assert_eq!(c.edge_reflection, 300_000);
}

#[test]
fn rejects_grid_below_three_nodes() {
    assert_eq!(Config::standard(2, 20, 10_000_000), Err(ConfigError::GridTooSmall));
    assert_eq!(Config::standard(0, 20, 10_000_000), Err(ConfigError::GridTooSmall));
}

#[test]
fn rejects_nonpositive_time_step() {
    assert_eq!(Config::standard(11, 0, 10_000_000), Err(ConfigError::NonPositiveDt));
    assert_eq!(Config::standard(11, -5, 10_000_000), Err(ConfigError::NonPositiveDt));
}

#[test]
fn rejects_nonpositive_run_duration() {
    assert_eq!(Config::standard(11, 20, 0), Err(ConfigError::NonPositiveDuration));
    assert_eq!(Config::standard(11, 20, -1), Err(ConfigError::NonPositiveDuration));
}

#[test]
fn rejects_parameters_outside_machine_range() {
    // A grid too fine for the proved overflow bounds.
    assert_eq!(Config::standard(1_000_000, 20, 10_000_000), Err(ConfigError::OutOfRange));
    let mut c = base_config();
    c.v_neo = -2_000_000_000;
    assert_eq!(c.validated(), Err(ConfigError::OutOfRange));
}

#[test]
fn validated_returns_the_same_configuration() {
    let c = base_config();
    match c.validated() {
        Ok(c2) => {
            assert_eq!(c2.nr, c.nr);
            assert_eq!(c2.dt, c.dt);
            assert_eq!(c2.edge_reflection, c.edge_reflection);
        },
        Err(_) => panic!("a valid configuration must revalidate"),
    }
}
