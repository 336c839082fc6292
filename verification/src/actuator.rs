//! Actuator lines and the timed pulses that drive fan and pump.

use vstd::prelude::*;

verus! {

/// Pin of the fan relay.
pub const FAN_PIN: u8 = 22;

/// Minutes from one fan pulse to the next.
pub const FAN_PERIODIC_MINS: u64 = 3;

/// Seconds the fan runs in each pulse.
pub const FAN_DURATION_SECS: u64 = 30;

/// Level of a digital output.
#[derive(Clone, Copy, Debug, PartialEq, Eq, Structural)]
pub enum Level {
    Low,
    High,
}

/// One step of a pulse on a line.
#[derive(Clone, Copy, Debug, PartialEq, Eq, Structural)]
pub enum PulseStep {
    /// Drive the line to this level.
    Drive(Level),
    /// Suspend for this many seconds.
    Wait(u64),
}

/// A pulse: raise the line, hold it for `seconds`, lower it.
pub open spec fn pulse_plan(seconds: u64) -> Seq<PulseStep> {
    seq![PulseStep::Drive(Level::High), PulseStep::Wait(seconds), PulseStep::Drive(Level::Low)]
}

/// The level of a line after a decision that may leave it alone.
pub open spec fn level_after(line: Level, decision: Option<Level>) -> Level {
    match decision {
        Some(level) => level,
        None => line,
    }
}

/// The level of a line after the steps of a plan, in order.
pub open spec fn level_after_steps(line: Level, steps: Seq<PulseStep>) -> Level
    decreases steps.len(),
{
    if steps.len() == 0 {
        line
    } else {
        match steps.last() {
            PulseStep::Drive(level) => level,
            PulseStep::Wait(_) => level_after_steps(line, steps.drop_last()),
        }
    }
}

/// The seconds that a plan suspends for, in all.
pub open spec fn seconds_waited(steps: Seq<PulseStep>) -> int
    decreases steps.len(),
{
    if steps.len() == 0 {
        0
    } else {
        seconds_waited(steps.drop_last()) + match steps.last() {
            PulseStep::Drive(_) => 0int,
            PulseStep::Wait(seconds) => seconds as int,
        }
    }
}

/// Applies a decision to a line.
pub fn apply(line: Level, decision: Option<Level>) -> (after: Level)
    ensures
        after == level_after(line, decision),
{
    match decision {
        Some(level) => level,
        None => line,
    }
}

/// The steps of one pulse of the given length.
pub fn pulse(seconds: u64) -> (plan: Vec<PulseStep>)
    ensures
        plan@ == pulse_plan(seconds),
{
    let mut plan: Vec<PulseStep> = Vec::new();
    plan.push(PulseStep::Drive(Level::High));
    plan.push(PulseStep::Wait(seconds));
    plan.push(PulseStep::Drive(Level::Low));
    proof {
        assert(plan@ =~= pulse_plan(seconds));
    }
    plan
}

/// One tick of the fan: a pulse of `FAN_DURATION_SECS`, whatever the sensor
/// says.
pub fn fan_service() -> (plan: Vec<PulseStep>)
    ensures
        plan@ == pulse_plan(FAN_DURATION_SECS),
{
    pulse(FAN_DURATION_SECS)
}

/// Seconds from one fan pulse to the next.
pub fn fan_period_secs() -> (seconds: u64)
    ensures
        seconds == 60 * FAN_PERIODIC_MINS,
{
    60 * FAN_PERIODIC_MINS
}

/// A pulse holds the line high for exactly its length and leaves it low,
/// wherever the line stood before.
pub proof fn lemma_pulse_shape(line: Level, seconds: u64)
    ensures
        level_after_steps(line, pulse_plan(seconds).take(1)) == Level::High,
        level_after_steps(line, pulse_plan(seconds).take(2)) == Level::High,
        level_after_steps(line, pulse_plan(seconds)) == Level::Low,
        seconds_waited(pulse_plan(seconds)) == seconds,
{
    let plan = pulse_plan(seconds);
    assert(plan.take(1) =~= seq![PulseStep::Drive(Level::High)]);
    assert(plan.take(2) =~= seq![PulseStep::Drive(Level::High), PulseStep::Wait(seconds)]);
    assert(plan.take(2).drop_last() =~= plan.take(1));
    assert(plan.drop_last() =~= plan.take(2));
    assert(plan.take(1).drop_last() =~= Seq::<PulseStep>::empty());
    reveal_with_fuel(level_after_steps, 4);
    reveal_with_fuel(seconds_waited, 4);
}

} // verus!
