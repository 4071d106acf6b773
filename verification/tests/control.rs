use tjaele::config::{ResponseTime, TjaeleControlConfig};
use tjaele::control::{ControlDecision, ControlFault, ControlLoopState, LoopAction};

fn config(hysteresis: u16) -> TjaeleControlConfig {
    TjaeleControlConfig::load(
        ResponseTime { secs: 0, subsec_nanos: 500_000_000 },
        hysteresis,
        &vec![(20, 20), (50, 50), (80, 100)],
    )
    .expect("the settings are valid")
}

#[test]
fn temperature_inside_the_band_changes_nothing() {
    let cfg = config(3);
    let step = cfg.decide(50, 52).expect("no fault");
    assert_eq!(step, ControlDecision::Hold);
    assert_eq!(step.last_temp_after(50, 52), 50);
}

#[test]
fn temperature_outside_the_band_commits_the_table_duty() {
    let cfg = config(3);
    let step = cfg.decide(50, 54).expect("no fault");
    assert_eq!(step, ControlDecision::Commit { duty: 57 });
    assert_eq!(step.last_temp_after(50, 54), 54);
    let cooler = cfg.decide(50, 35).expect("no fault");
    assert_eq!(cooler, ControlDecision::Commit { duty: 35 });
    assert_eq!(cooler.last_temp_after(50, 35), 35);
}

#[test]
fn band_includes_both_ends() {
    let cfg = config(3);
    assert!(cfg.within_hysteresis(50, 47));
    assert!(cfg.within_hysteresis(50, 50));
    assert!(cfg.within_hysteresis(50, 53));
    assert!(!cfg.within_hysteresis(50, 46));
    assert!(!cfg.within_hysteresis(50, 54));
    assert_eq!(cfg.decide(50, 47), Ok(ControlDecision::Hold));
    assert_eq!(cfg.decide(50, 53), Ok(ControlDecision::Hold));
    assert_eq!(cfg.decide(50, 46), Ok(ControlDecision::Commit { duty: 46 }));
}

#[test]
fn band_saturates_at_the_ends_of_the_range() {
    let cfg = config(5);
    assert!(cfg.within_hysteresis(2, 0));
    assert!(cfg.within_hysteresis(0, 5));
    assert!(!cfg.within_hysteresis(0, 6));
    assert!(cfg.within_hysteresis(u32::MAX, u32::MAX));
    assert!(cfg.within_hysteresis(u32::MAX - 1, u32::MAX));
    assert!(!cfg.within_hysteresis(u32::MAX, u32::MAX - 6));
    // the first step of a loop starts from 0
    assert_eq!(cfg.decide(0, 40), Ok(ControlDecision::Commit { duty: 40 }));
    assert_eq!(cfg.decide(0, 3), Ok(ControlDecision::Hold));
}

#[test]
fn temperature_above_the_table_is_a_fault() {
    let cfg = config(3);
    assert_eq!(cfg.decide(50, 256), Err(ControlFault::TemperatureOutOfRange));
    assert_eq!(cfg.decide(0, 300), Err(ControlFault::TemperatureOutOfRange));
    assert_eq!(cfg.decide(250, 255), Ok(ControlDecision::Commit { duty: 100 }));
    // inside the band the temperature is not looked up at all
    assert_eq!(cfg.decide(300, 301), Ok(ControlDecision::Hold));
}

#[test]
fn incomplete_table_is_a_fault() {
    let cfg = TjaeleControlConfig::new(
        ResponseTime { secs: 1, subsec_nanos: 0 },
        3,
        &vec![(20, 20), (50, 50), (80, 100)],
    )
    .expect("the settings are valid");
    assert_eq!(cfg.decide(0, 40), Err(ControlFault::MissingCurvePoint));
    assert_eq!(cfg.decide(0, 50), Ok(ControlDecision::Commit { duty: 50 }));
    let mut broken = cfg;
    broken.fan_curve.insert(60, 130);
    assert_eq!(broken.decide(0, 60), Err(ControlFault::DutyAboveLimit));
}

#[test]
fn every_fault_has_its_own_sentence() {
    assert_eq!(
        ControlFault::TemperatureOutOfRange.message(),
        "Your device somehow is warmer than 255C"
    );
    assert_ne!(
        ControlFault::MissingCurvePoint.message(),
        ControlFault::DutyAboveLimit.message()
    );
}

#[test]
fn loop_starts_at_zero_and_follows_the_steps() {
    let start = ControlLoopState::start();
    assert_eq!(start, ControlLoopState::Running { last_temp: 0 });
    assert_eq!(start.last_temp(), Some(0));
    let (next, action) = start.advance(Some(54));
    assert_eq!(next, ControlLoopState::Running { last_temp: 54 });
    assert_eq!(action, LoopAction::Sleep);
    let (held, action) = next.advance(Some(54));
    assert_eq!(held.last_temp(), Some(54));
    assert_eq!(action, LoopAction::Sleep);
}

#[test]
fn failed_step_faults_the_loop_for_good() {
    let running = ControlLoopState::Running { last_temp: 61 };
    let (faulted, action) = running.advance(None);
    assert_eq!(faulted, ControlLoopState::Faulted);
    assert_eq!(action, LoopAction::Shutdown);
    assert_eq!(faulted.last_temp(), None);
    assert_eq!(faulted.advance(Some(40)), (ControlLoopState::Faulted, LoopAction::Shutdown));
    assert_eq!(faulted.advance(None), (ControlLoopState::Faulted, LoopAction::Shutdown));
}
