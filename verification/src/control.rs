//! One step of the control loop: the hysteresis band round the temperature
//! that was last acted upon, and what a newly observed temperature calls for.

use crate::config::TjaeleControlConfig;
use crate::curve_map::lookup;
use vstd::prelude::*;

verus! {

/// What a control step does to the fans.
#[derive(Debug, Clone, Copy, PartialEq, Eq, Structural)]
pub enum ControlDecision {
    /// The temperature is inside the band: nothing changes.
    Hold,
    /// Every fan is set to this duty, in percent.
    Commit { duty: u8 },
}

/// Why a control step cannot go on.
#[derive(Debug, Clone, Copy, PartialEq, Eq, Structural)]
pub enum ControlFault {
    /// The device reports more than 255 degrees.
    TemperatureOutOfRange,
    /// The table has no entry for the temperature.
    MissingCurvePoint,
    /// The table asks for more than 100 percent.
    DutyAboveLimit,
}

/// The lowest temperature of the band; it never goes below 0.
pub open spec fn band_low(last_temp: u32, hysteresis: u16) -> int {
    if last_temp >= hysteresis {
        last_temp - hysteresis
    } else {
        0
    }
}

/// The highest temperature of the band; it never goes above what a `u32` holds.
pub open spec fn band_high(last_temp: u32, hysteresis: u16) -> int {
    if last_temp + hysteresis <= u32::MAX {
        last_temp + hysteresis
    } else {
        u32::MAX as int
    }
}

/// Whether `observed` lies in the hysteresis band round `last_temp`, ends included.
pub open spec fn in_band(last_temp: u32, hysteresis: u16, observed: u32) -> bool {
    band_low(last_temp, hysteresis) <= observed <= band_high(last_temp, hysteresis)
}

/// What the observed temperature calls for, given the table and the band.
pub open spec fn decision(table: Map<u8, u8>, hysteresis: u16, last_temp: u32, observed: u32)
    -> Result<ControlDecision, ControlFault> {
    if in_band(last_temp, hysteresis, observed) {
        Ok(ControlDecision::Hold)
    } else if observed > 255 {
        Err(ControlFault::TemperatureOutOfRange)
    } else if !table.contains_key(observed as u8) {
        Err(ControlFault::MissingCurvePoint)
    } else if table[observed as u8] > 100 {
        Err(ControlFault::DutyAboveLimit)
    } else {
        Ok(ControlDecision::Commit { duty: table[observed as u8] })
    }
}

/// The temperature that the next band is centred on: the observed one after
/// a commit, the old one otherwise.
pub open spec fn next_last_temp(step: ControlDecision, last_temp: u32, observed: u32) -> u32 {
    match step {
        ControlDecision::Hold => last_temp,
        ControlDecision::Commit { .. } => observed,
    }
}

impl TjaeleControlConfig {
    /// Whether `observed` lies in the hysteresis band round `last_temp`.
    pub fn within_hysteresis(&self, last_temp: u32, observed: u32) -> (inside: bool)
        ensures
            inside == in_band(last_temp, self.hysteresis, observed),
    {
        let width: u32 = self.hysteresis as u32;
        let low = last_temp.saturating_sub(width);
        let high = last_temp.saturating_add(width);
        low <= observed && observed <= high
    }

    /// Decides one control step from the temperature that was last acted
    /// upon and the one that the device reports now.
    pub fn decide(&self, last_temp: u32, observed: u32) -> (r: Result<
        ControlDecision,
        ControlFault,
    >)
        ensures
            r == decision(self.fan_curve@, self.hysteresis, last_temp, observed),
    {
        if self.within_hysteresis(last_temp, observed) {
            return Ok(ControlDecision::Hold);
        }
        if observed > 255 {
            return Err(ControlFault::TemperatureOutOfRange);
        }
        match lookup(&self.fan_curve, observed as u8) {
            None => Err(ControlFault::MissingCurvePoint),
            Some(duty) => {
                if duty > 100 {
                    Err(ControlFault::DutyAboveLimit)
                } else {
                    Ok(ControlDecision::Commit { duty })
                }
            },
        }
    }
}

/// The sentence that names a fault.
pub open spec fn fault_sentence(fault: ControlFault) -> Seq<char> {
    match fault {
        ControlFault::TemperatureOutOfRange => "Your device somehow is warmer than 255C"@,
        ControlFault::MissingCurvePoint => "Missing fan curve point - this should not happen"@,
        ControlFault::DutyAboveLimit => "Fan duty failed sanity check - this should not happen"@,
    }
}

impl ControlFault {
    /// The sentence shown to the operator.
    pub fn message(&self) -> (text: &'static str)
        ensures
            text@ == fault_sentence(*self),
    {
        match self {
            ControlFault::TemperatureOutOfRange => "Your device somehow is warmer than 255C",
            ControlFault::MissingCurvePoint => "Missing fan curve point - this should not happen",
            ControlFault::DutyAboveLimit => "Fan duty failed sanity check - this should not happen",
        }
    }
}

impl ControlDecision {
    /// The temperature that the next step starts from.
    pub fn last_temp_after(&self, last_temp: u32, observed: u32) -> (next: u32)
        ensures
            next == next_last_temp(*self, last_temp, observed),
    {
        match self {
            ControlDecision::Hold => last_temp,
            ControlDecision::Commit { .. } => observed,
        }
    }
}

/// Where the control loop stands.
#[derive(Debug, Clone, Copy, PartialEq, Eq, Structural)]
pub enum ControlLoopState {
    /// The loop runs; `last_temp` is the temperature that was last acted upon.
    Running { last_temp: u32 },
    /// A step failed. The loop never leaves this state.
    Faulted,
}

/// What the loop's driver does after a step.
#[derive(Debug, Clone, Copy, PartialEq, Eq, Structural)]
pub enum LoopAction {
    /// Wait for the response time, then take the next step.
    Sleep,
    /// Begin the shutdown of the whole daemon.
    Shutdown,
}

/// The state that follows a step: a success moves a running loop to the
/// temperature that the step returned, any failure faults it for good.
pub open spec fn state_after(state: ControlLoopState, step: Option<u32>) -> ControlLoopState {
    match (state, step) {
        (ControlLoopState::Running { .. }, Some(temp)) => ControlLoopState::Running {
            last_temp: temp,
        },
        _ => ControlLoopState::Faulted,
    }
}

impl ControlLoopState {
    /// The state that a loop starts in: running, with 0 as the temperature
    /// last acted upon.
    pub fn start() -> (state: Self)
        ensures
            state == (ControlLoopState::Running { last_temp: 0 }),
    {
        ControlLoopState::Running { last_temp: 0 }
    }

    /// The temperature that the next step starts from, while the loop runs.
    pub fn last_temp(&self) -> (temp: Option<u32>)
        ensures
            temp == match *self {
                ControlLoopState::Running { last_temp } => Some(last_temp),
                ControlLoopState::Faulted => None,
            },
    {
        match self {
            ControlLoopState::Running { last_temp } => Some(*last_temp),
            ControlLoopState::Faulted => None,
        }
    }

    /// Takes in how a step went: `Some` with the temperature that it
    /// returned, or `None` where it failed. Returns the next state and what
    /// the driver does now.
    pub fn advance(self, step: Option<u32>) -> (r: (Self, LoopAction))
        ensures
            r.0 == state_after(self, step),
            r.1 == (if r.0 == ControlLoopState::Faulted {
                LoopAction::Shutdown
            } else {
                LoopAction::Sleep
            }),
    {
        match (self, step) {
            (ControlLoopState::Running { .. }, Some(temp)) => (
                ControlLoopState::Running { last_temp: temp },
                LoopAction::Sleep,
            ),
            _ => (ControlLoopState::Faulted, LoopAction::Shutdown),
        }
    }
}

/// A faulted loop stays faulted, whatever the later steps report.
pub proof fn lemma_faulted_is_terminal(step: Option<u32>)
    ensures
        state_after(ControlLoopState::Faulted, step) == ControlLoopState::Faulted,
{
}

/// With a complete table a step fails only where the device reports more than
/// 255 degrees, a temperature inside the band changes nothing, and one
/// outside it commits the table's duty for that temperature, which is at most
/// 100 percent; the next band is then centred on the observed temperature.
pub proof fn lemma_step_with_table(
    table: Map<u8, u8>,
    hysteresis: u16,
    last_temp: u32,
    observed: u32,
)
    requires
        crate::fan_curve::is_fan_curve_table(table),
    ensures
        in_band(last_temp, hysteresis, observed) ==> decision(
            table,
            hysteresis,
            last_temp,
            observed,
        ) matches Ok(ControlDecision::Hold),
        !in_band(last_temp, hysteresis, observed) && observed <= 255 ==> (decision(
            table,
            hysteresis,
            last_temp,
            observed,
        ) matches Ok(ControlDecision::Commit { duty }) && duty == table[observed as u8] && duty
            <= 100),
        !in_band(last_temp, hysteresis, observed) && observed > 255 ==> decision(
            table,
            hysteresis,
            last_temp,
            observed,
        ) matches Err(ControlFault::TemperatureOutOfRange),
{
}

} // verus!
