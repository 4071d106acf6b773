use rustc_hash::FxHashMap;
use tjaele::config::{ConfigError, ResponseTime, TjaeleControlConfig};
use tjaele::curve_map::{lookup, try_insert};

fn one_second() -> ResponseTime {
    ResponseTime { secs: 1, subsec_nanos: 0 }
}

fn compile(points: Vec<(u8, u8)>) -> Result<TjaeleControlConfig, ConfigError> {
    TjaeleControlConfig::load(one_second(), 3, &points)
}

fn table_of(points: Vec<(u8, u8)>) -> Vec<u8> {
    let cfg = compile(points).expect("the anchors are valid");
    (0..=255u8).map(|t| cfg.duty_at(t).expect("the table is complete")).collect()
}

fn assert_is_table(table: &[u8]) {
    assert_eq!(table.len(), 256);
    for t in 0..256 {
        assert!(table[t] <= 100, "duty above 100 at {}", t);
        if t > 0 {
            assert!(table[t - 1] <= table[t], "table falls at {}", t);
        }
    }
}

#[test]
fn three_anchor_curve_matches_the_worked_example() {
    let table = table_of(vec![(20, 20), (50, 50), (80, 100)]);
    assert_eq!(table[20], 20);
    assert_eq!(table[50], 50);
    assert_eq!(table[80], 100);
    for t in 0..20 {
        assert_eq!(table[t], 20);
    }
    for t in 81..256 {
        assert_eq!(table[t], 100);
    }
    assert_eq!(table[255], 100);
    assert_eq!(table[35], 35);
    assert_is_table(&table);
}

#[test]
fn interpolation_rounds_a_fractional_duty_up() {
    let table = table_of(vec![(20, 20), (50, 50), (80, 100)]);
    // slope 50/30 between (50,50) and (80,100)
    assert_eq!(table[51], 52);
    assert_eq!(table[52], 54);
    assert_eq!(table[53], 55);
    assert_eq!(table[65], 75);
    assert_eq!(table[79], 99);
    // slope 1/10: every step above the lower anchor already needs the next percent
    let gentle = table_of(vec![(10, 40), (20, 41), (30, 41)]);
    assert_eq!(gentle[10], 40);
    assert_eq!(gentle[11], 41);
    assert_eq!(gentle[19], 41);
    assert_eq!(gentle[20], 41);
    assert_eq!(gentle[25], 41);
}

#[test]
fn unsorted_anchors_compile_to_the_same_table() {
    let sorted = table_of(vec![(20, 20), (50, 50), (80, 100)]);
    let shuffled = table_of(vec![(80, 100), (20, 20), (50, 50)]);
    assert_eq!(sorted, shuffled);
}

#[test]
fn compiled_table_is_complete_monotonic_and_bounded() {
    let sets: Vec<Vec<(u8, u8)>> = vec![
        vec![(20, 20), (50, 50), (80, 100)],
        vec![(0, 0), (128, 37), (255, 100)],
        vec![(1, 100), (2, 100), (3, 100)],
        vec![(90, 93), (30, 0), (60, 7), (61, 93), (200, 94)],
        vec![(254, 3), (0, 1), (1, 2), (255, 99)],
        vec![(10, 0), (11, 0), (12, 0), (13, 1)],
    ];
    for points in sets {
        let cfg = compile(points.clone()).expect("the anchors are valid");
        let pairs = cfg.curve_points();
        assert_eq!(pairs.len(), 256);
        for (t, pair) in pairs.iter().enumerate() {
            assert_eq!(pair.0 as usize, t);
            assert_eq!(Some(pair.1), cfg.duty_at(t as u8));
        }
        let table: Vec<u8> = pairs.iter().map(|p| p.1).collect();
        assert_is_table(&table);
        for (t, d) in points {
            assert_eq!(table[t as usize], d);
        }
        assert_eq!(cfg.validate_fan_curve(), Ok(()));
    }
}

#[test]
fn anchors_at_both_ends_leave_nothing_to_extend() {
    let table = table_of(vec![(0, 10), (100, 60), (255, 91)]);
    assert_eq!(table[0], 10);
    assert_eq!(table[1], 11);
    assert_eq!(table[100], 60);
    assert_eq!(table[101], 61);
    assert_eq!(table[254], 91);
    assert_eq!(table[255], 91);
    assert_is_table(&table);
}

#[test]
fn decreasing_duty_is_rejected() {
    assert_eq!(
        compile(vec![(20, 50), (50, 40), (80, 100)]).err(),
        Some(ConfigError::DecreasingDuty)
    );
    assert_eq!(
        compile(vec![(80, 10), (20, 20), (50, 50)]).err(),
        Some(ConfigError::DecreasingDuty)
    );
    assert_eq!(
        compile(vec![(10, 10), (20, 20), (30, 30), (40, 29)]).err(),
        Some(ConfigError::DecreasingDuty)
    );
}

#[test]
fn duplicate_temperature_is_rejected() {
    assert_eq!(
        compile(vec![(20, 20), (50, 50), (20, 30)]).err(),
        Some(ConfigError::DuplicateTemperature)
    );
    assert_eq!(
        compile(vec![(20, 20), (50, 50), (80, 90), (50, 50)]).err(),
        Some(ConfigError::DuplicateTemperature)
    );
}

#[test]
fn settings_are_checked_in_order() {
    let points = vec![(20, 20), (50, 50), (80, 100)];
    let quarter = ResponseTime { secs: 0, subsec_nanos: 250_000_000 };
    let too_short = ResponseTime { secs: 0, subsec_nanos: 249_999_999 };
    assert!(TjaeleControlConfig::load(quarter, 1, &points).is_ok());
    assert!(TjaeleControlConfig::load(quarter, 5, &points).is_ok());
    assert_eq!(
        TjaeleControlConfig::load(quarter, 0, &points).err(),
        Some(ConfigError::HysteresisOutOfRange)
    );
    assert_eq!(
        TjaeleControlConfig::load(quarter, 6, &points).err(),
        Some(ConfigError::HysteresisOutOfRange)
    );
    assert_eq!(
        TjaeleControlConfig::load(too_short, 3, &points).err(),
        Some(ConfigError::ResponseTimeTooShort)
    );
    assert_eq!(
        TjaeleControlConfig::load(too_short, 0, &points).err(),
        Some(ConfigError::HysteresisOutOfRange)
    );
    assert_eq!(
        TjaeleControlConfig::load(quarter, 3, &vec![(20, 20), (50, 50)]).err(),
        Some(ConfigError::TooFewPoints)
    );
    assert_eq!(
        TjaeleControlConfig::load(quarter, 3, &vec![]).err(),
        Some(ConfigError::TooFewPoints)
    );
    assert_eq!(
        TjaeleControlConfig::load(quarter, 3, &vec![(20, 20), (50, 101)]).err(),
        Some(ConfigError::DutyTooHigh)
    );
    assert_eq!(
        TjaeleControlConfig::load(quarter, 3, &vec![(20, 20), (50, 50), (80, 101)]).err(),
        Some(ConfigError::DutyTooHigh)
    );
}

#[test]
fn new_keeps_the_points_as_anchors() {
    let cfg = TjaeleControlConfig::new(one_second(), 2, &vec![(80, 100), (20, 20), (50, 50)])
        .expect("the settings are valid");
    assert_eq!(cfg.hysteresis, 2);
    assert_eq!(cfg.response_time, one_second());
    assert_eq!(cfg.fan_curve.len(), 3);
    assert_eq!(cfg.duty_at(20), Some(20));
    assert_eq!(cfg.duty_at(50), Some(50));
    assert_eq!(cfg.duty_at(80), Some(100));
    assert_eq!(cfg.duty_at(21), None);
    assert_eq!(cfg.curve_points(), vec![(20, 20), (50, 50), (80, 100)]);
    assert_eq!(cfg.validate_fan_curve(), Err(ConfigError::GeneratedCurveIncomplete));
}

fn config_with(entries: Vec<(u8, u8)>) -> TjaeleControlConfig {
    let mut fan_curve: FxHashMap<u8, u8> = FxHashMap::default();
    for (t, d) in entries {
        fan_curve.insert(t, d);
    }
    TjaeleControlConfig { response_time: one_second(), hysteresis: 3, fan_curve }
}

#[test]
fn precompute_checks_the_anchors_itself() {
    assert_eq!(
        config_with(vec![(20, 20), (50, 50)]).precompute_fan_curve().err(),
        Some(ConfigError::TooFewPoints)
    );
    assert_eq!(
        config_with(vec![]).precompute_fan_curve().err(),
        Some(ConfigError::TooFewPoints)
    );
    assert_eq!(
        config_with(vec![(20, 20), (50, 50), (80, 120)]).precompute_fan_curve().err(),
        Some(ConfigError::DutyTooHigh)
    );
    assert_eq!(
        config_with(vec![(20, 20), (50, 19), (80, 100)]).precompute_fan_curve().err(),
        Some(ConfigError::DecreasingDuty)
    );
    let cfg = config_with(vec![(20, 20), (50, 50), (80, 100)])
        .precompute_fan_curve()
        .expect("the anchors are valid");
    assert_eq!(cfg.fan_curve.len(), 256);
    assert_eq!(cfg.duty_at(35), Some(35));
    assert_eq!(cfg.hysteresis, 3);
}

#[test]
fn validation_names_what_is_wrong_with_a_table() {
    let flat: Vec<(u8, u8)> = (0..=255u8).map(|t| (t, 40)).collect();
    assert_eq!(config_with(flat.clone()).validate_fan_curve(), Ok(()));

    let mut missing = flat.clone();
    missing.remove(17);
    assert_eq!(
        config_with(missing).validate_fan_curve(),
        Err(ConfigError::GeneratedCurveIncomplete)
    );

    let mut high = flat.clone();
    high[255] = (255, 101);
    assert_eq!(config_with(high).validate_fan_curve(), Err(ConfigError::GeneratedCurveDuty));

    let mut falling = flat.clone();
    falling[100] = (100, 39);
    assert_eq!(
        config_with(falling).validate_fan_curve(),
        Err(ConfigError::GeneratedCurveDirection)
    );

    let mut both = flat;
    both[3] = (3, 200);
    assert_eq!(config_with(both).validate_fan_curve(), Err(ConfigError::GeneratedCurveDuty));
}

#[test]
fn every_rule_has_its_own_sentence() {
    let all = [
        ConfigError::HysteresisOutOfRange,
        ConfigError::ResponseTimeTooShort,
        ConfigError::DutyTooHigh,
        ConfigError::TooFewPoints,
        ConfigError::DuplicateTemperature,
        ConfigError::DecreasingDuty,
        ConfigError::PointOccupied,
        ConfigError::GeneratedCurveIncomplete,
        ConfigError::GeneratedCurveDuty,
        ConfigError::GeneratedCurveDirection,
    ];
    for (i, a) in all.iter().enumerate() {
        assert!(!a.message().is_empty());
        for b in all.iter().skip(i + 1) {
            assert_ne!(a.message(), b.message());
        }
    }
    assert_eq!(ConfigError::HysteresisOutOfRange.message(), "Hysteresis must be between 1C and 5C");
    assert_eq!(
        ConfigError::DecreasingDuty.message(),
        "Fan duty must not decrease with temperature"
    );
}

#[test]
fn try_insert_keeps_an_occupied_temperature() {
    let mut curve: FxHashMap<u8, u8> = FxHashMap::default();
    assert_eq!(lookup(&curve, 40), None);
    assert!(try_insert(&mut curve, 40, 30));
    assert_eq!(lookup(&curve, 40), Some(30));
    assert!(!try_insert(&mut curve, 40, 99));
    assert_eq!(lookup(&curve, 40), Some(30));
    assert!(try_insert(&mut curve, 41, 99));
    assert_eq!(lookup(&curve, 41), Some(99));
    assert_eq!(lookup(&curve, 42), None);
    assert_eq!(curve.len(), 2);
}
