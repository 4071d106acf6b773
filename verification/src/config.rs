//! The control configuration and the rules that it must satisfy before a
//! device is ever opened.

use crate::curve_map::{empty_curve, try_insert};
use rustc_hash::FxHashMap;
use vstd::prelude::*;

verus! {

/// Why a configuration or its fan curve was rejected.
#[derive(Debug, Clone, Copy, PartialEq, Eq, Structural)]
pub enum ConfigError {
    /// The hysteresis is 0 or more than 5 degrees.
    HysteresisOutOfRange,
    /// The response time is shorter than a quarter of a second.
    ResponseTimeTooShort,
    /// A curve point asks for a duty above 100 percent.
    DutyTooHigh,
    /// The curve has fewer than 3 points.
    TooFewPoints,
    /// Two curve points share one temperature.
    DuplicateTemperature,
    /// A warmer curve point asks for a lower duty than a cooler one.
    DecreasingDuty,
    /// A temperature that was about to be filled in already had a duty.
    PointOccupied,
    /// The generated table lacks a temperature.
    GeneratedCurveIncomplete,
    /// The generated table holds a duty above 100 percent.
    GeneratedCurveDuty,
    /// The generated table falls somewhere as the temperature rises.
    GeneratedCurveDirection,
}

/// The time between two control steps, as whole seconds and the nanoseconds
/// beyond them.
#[derive(Debug, Clone, Copy, PartialEq, Eq, Structural)]
pub struct ResponseTime {
    pub secs: u64,
    pub subsec_nanos: u32,
}

impl ResponseTime {
    /// Whether the time is at least a quarter of a second.
    pub open spec fn is_long_enough(self) -> bool {
        self.secs >= 1 || self.subsec_nanos >= 250_000_000
    }
}

/// The settings of the control loop. `fan_curve` maps a temperature in
/// degrees Celsius to a duty in percent: first the anchors that were
/// configured, and, once it is compiled, the complete table.
#[derive(Debug, Clone)]
pub struct TjaeleControlConfig {
    pub response_time: ResponseTime,
    pub hysteresis: u16,
    pub fan_curve: FxHashMap<u8, u8>,
}

/// Some point asks for more than 100 percent.
pub open spec fn lists_high_duty(points: Seq<(u8, u8)>) -> bool {
    exists|i: int| 0 <= i < points.len() && (#[trigger] points[i]).1 > 100
}

/// Two points of the list share a temperature.
pub open spec fn lists_duplicate(points: Seq<(u8, u8)>) -> bool {
    exists|i: int, j: int|
        0 <= i < j < points.len() && (#[trigger] points[i]).0 == (#[trigger] points[j]).0
}

/// The first rule that the values break, in the order in which they are
/// checked, or `None` where they break none.
pub open spec fn load_error(response_time: ResponseTime, hysteresis: u16, points: Seq<(u8, u8)>)
    -> Option<ConfigError> {
    if hysteresis == 0 || hysteresis > 5 {
        Some(ConfigError::HysteresisOutOfRange)
    } else if !response_time.is_long_enough() {
        Some(ConfigError::ResponseTimeTooShort)
    } else if lists_high_duty(points) {
        Some(ConfigError::DutyTooHigh)
    } else if points.len() < 3 {
        Some(ConfigError::TooFewPoints)
    } else if lists_duplicate(points) {
        Some(ConfigError::DuplicateTemperature)
    } else {
        None
    }
}

/// The map holds exactly the first `n` points of the list.
pub open spec fn holds_points(m: Map<u8, u8>, points: Seq<(u8, u8)>, n: int) -> bool {
    &&& forall|i: int|
        0 <= i < n ==> m.contains_key((#[trigger] points[i]).0) && m[points[i].0] == points[i].1
    &&& forall|t: u8|
        m.contains_key(t) ==> exists|i: int| 0 <= i < n && (#[trigger] points[i]).0 == t
}

/// The sentence that names a broken rule.
pub open spec fn rule_sentence(rule: ConfigError) -> Seq<char> {
    match rule {
        ConfigError::HysteresisOutOfRange => "Hysteresis must be between 1C and 5C"@,
        ConfigError::ResponseTimeTooShort => "Response time must be at least 0.25 seconds"@,
        ConfigError::DutyTooHigh => "Fan duty cannot be higher than 100%"@,
        ConfigError::TooFewPoints => "Fan curve must have at least 3 points"@,
        ConfigError::DuplicateTemperature => "Fan curve has two points at one temperature"@,
        ConfigError::DecreasingDuty => "Fan duty must not decrease with temperature"@,
        ConfigError::PointOccupied => "Found curve point which should not yet be present"@,
        ConfigError::GeneratedCurveIncomplete => "Generated fan curve is not valid (missing point)"@,
        ConfigError::GeneratedCurveDuty => "Generated fan curve is not valid (fan duty)"@,
        ConfigError::GeneratedCurveDirection => "Generated fan curve is not valid (direction)"@,
    }
}

impl ConfigError {
    /// The sentence shown to the operator.
    pub fn message(&self) -> (text: &'static str)
        ensures
            text@ == rule_sentence(*self),
    {
        match self {
            ConfigError::HysteresisOutOfRange => "Hysteresis must be between 1C and 5C",
            ConfigError::ResponseTimeTooShort => "Response time must be at least 0.25 seconds",
            ConfigError::DutyTooHigh => "Fan duty cannot be higher than 100%",
            ConfigError::TooFewPoints => "Fan curve must have at least 3 points",
            ConfigError::DuplicateTemperature => "Fan curve has two points at one temperature",
            ConfigError::DecreasingDuty => "Fan duty must not decrease with temperature",
            ConfigError::PointOccupied => "Found curve point which should not yet be present",
            ConfigError::GeneratedCurveIncomplete => "Generated fan curve is not valid (missing point)",
            ConfigError::GeneratedCurveDuty => "Generated fan curve is not valid (fan duty)",
            ConfigError::GeneratedCurveDirection => "Generated fan curve is not valid (direction)",
        }
    }
}

impl TjaeleControlConfig {
    /// Checks the values of a configuration and keeps the points as the
    /// anchors of the fan curve. Every rule is checked before anything else
    /// is done with the values; the first broken rule is reported.
    pub fn new(response_time: ResponseTime, hysteresis: u16, points: &Vec<(u8, u8)>) -> (r: Result<
        Self,
        ConfigError,
    >)
        ensures
            match r {
                Ok(cfg) => load_error(response_time, hysteresis, points@) is None
                    && cfg.response_time == response_time && cfg.hysteresis == hysteresis
                    && holds_points(cfg.fan_curve@, points@, points@.len() as int),
                Err(e) => load_error(response_time, hysteresis, points@) == Some(e),
            },
    {
        if hysteresis == 0 || hysteresis > 5 {
            return Err(ConfigError::HysteresisOutOfRange);
        }
        if response_time.secs < 1 && response_time.subsec_nanos < 250_000_000 {
            return Err(ConfigError::ResponseTimeTooShort);
        }
        let mut i: usize = 0;
        while i < points.len()
            invariant
                i <= points.len(),
                1 <= hysteresis <= 5,
                response_time.is_long_enough(),
                forall|k: int| 0 <= k < i ==> (#[trigger] points@[k]).1 <= 100,
            decreases points.len() - i,
        {
            if points[i].1 > 100 {
                proof {
                    assert(points@[i as int].1 > 100);
                    assert(lists_high_duty(points@));
                }
                return Err(ConfigError::DutyTooHigh);
            }
            i += 1;
        }
        if points.len() < 3 {
            return Err(ConfigError::TooFewPoints);
        }
        let mut fan_curve = empty_curve();
        let mut n: usize = 0;
        while n < points.len()
            invariant
                n <= points.len(),
                points.len() >= 3,
                1 <= hysteresis <= 5,
                response_time.is_long_enough(),
                !lists_high_duty(points@),
                holds_points(fan_curve@, points@, n as int),
                forall|a: int, b: int|
                    0 <= a < b < n ==> (#[trigger] points@[a]).0 != (#[trigger] points@[b]).0,
            decreases points.len() - n,
        {
            let ghost before = fan_curve@;
            let point = points[n];
            if !try_insert(&mut fan_curve, point.0, point.1) {
                proof {
                    let a = choose|a: int| 0 <= a < n && (#[trigger] points@[a]).0 == point.0;
                    assert(points@[a].0 == points@[n as int].0);
                    assert(lists_duplicate(points@));
                }
                return Err(ConfigError::DuplicateTemperature);
            }
            proof {
                assert forall|t: u8| fan_curve@.contains_key(t) implies exists|i: int|
                    0 <= i < n + 1 && (#[trigger] points@[i]).0 == t by {
                    if t == point.0 {
                        assert(points@[n as int].0 == t);
                    } else {
                        assert(before.contains_key(t));
                        let i = choose|i: int| 0 <= i < n && (#[trigger] points@[i]).0 == t;
                        assert(points@[i].0 == t);
                    }
                }
                assert forall|i: int| 0 <= i < n + 1 implies fan_curve@.contains_key(
                    (#[trigger] points@[i]).0,
                ) && fan_curve@[points@[i].0] == points@[i].1 by {
                    if i < n {
                        assert(before.contains_key(points@[i].0));
                    }
                }
            }
            n += 1;
        }
        Ok(TjaeleControlConfig { response_time, hysteresis, fan_curve })
    }
}

} // verus!
