use multishot::config::{Config, ConfigError};

#[test]
fn default_config_has_the_documented_values() {
    let c = Config::default();
    assert_eq!(c.duration_ms, 60_000);
    assert_eq!(c.target_count, 3);
    assert_eq!(c.target_life_ms, 900);
    assert_eq!(c.margin, 80);
    assert_eq!(c.min_r, 10);
    assert_eq!(c.max_r, 28);
    assert_eq!(c.base_points, 100);
    assert_eq!(c.speed_bonus, 100);
    assert_eq!(c.miss_penalty, 50);
    assert_eq!(c.expire_penalty, 75);
}

#[test]
fn default_config_is_valid() {
    assert_eq!(Config::default().validate(), Ok(()));
}

#[test]
fn zero_targets_are_refused() {
    let mut c = Config::default();
    c.target_count = 0;
    assert_eq!(c.validate(), Err(ConfigError::NoTargets));
}

#[test]
fn inverted_radii_are_refused() {
    let mut c = Config::default();
    c.min_r = 29;
    assert_eq!(c.validate(), Err(ConfigError::RadiiInverted));
    c.min_r = 28;
    assert_eq!(c.validate(), Ok(()));
}

#[test]
fn zero_lifetime_is_refused() {
    let mut c = Config::default();
    c.target_life_ms = 0;
    assert_eq!(c.validate(), Err(ConfigError::ZeroLifetime));
    c.target_life_ms = 1;
    assert_eq!(c.validate(), Ok(()));
}

#[test]
fn lifetime_whose_jitter_overflows_is_refused() {
    let mut c = Config::default();
    c.target_life_ms = u32::MAX;
    assert_eq!(c.validate(), Err(ConfigError::LifetimeTooLong));
    c.target_life_ms = 3_734_754_171;
    assert_eq!(c.validate(), Err(ConfigError::LifetimeTooLong));
    c.target_life_ms = 3_734_754_170;
    assert_eq!(c.validate(), Ok(()));
}

#[test]
fn faults_are_reported_in_a_fixed_order() {
    let mut c = Config::default();
    c.target_count = 0;
    c.min_r = 100;
    c.target_life_ms = 0;
    assert_eq!(c.validate(), Err(ConfigError::NoTargets));
    c.target_count = 1;
    assert_eq!(c.validate(), Err(ConfigError::RadiiInverted));
    c.min_r = 0;
    assert_eq!(c.validate(), Err(ConfigError::ZeroLifetime));
}

#[test]
fn zero_is_allowed_where_nothing_forbids_it() {
    let c = Config {
        duration_ms: 0,
        target_count: 1,
        target_life_ms: 1,
        margin: 0,
        min_r: 0,
        max_r: 0,
        base_points: 0,
        speed_bonus: 0,
        miss_penalty: 0,
        expire_penalty: 0,
    };
    assert_eq!(c.validate(), Ok(()));
}

#[test]
fn life_bounds_are_85_and_115_percent() {
    let mut c = Config::default();
    assert_eq!(c.life_bounds(), (765, 1035));
    c.target_life_ms = 1000;
    assert_eq!(c.life_bounds(), (850, 1150));
    c.target_life_ms = 1;
    assert_eq!(c.life_bounds(), (1, 1));
    c.target_life_ms = 7;
    // 5.95 rounds up to 6, 8.05 rounds down to 8.
    assert_eq!(c.life_bounds(), (6, 8));
    c.target_life_ms = 3_734_754_170;
    assert_eq!(c.life_bounds(), (3_174_541_045, u32::MAX));
}
