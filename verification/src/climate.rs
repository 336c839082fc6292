//! The climate cycle: one temperature and one humidity reading per tick, a
//! log record of both, and the humidifier driven through a dead band.

use crate::actuator::Level;
use crate::sht20::{Reading, ShtError};
use crate::time::{now, Timestamp};
use vstd::prelude::*;

verus! {

/// Pin of the humidifier relay.
pub const HUMIDIFIER_PIN: u8 = 24;

/// Minutes from one climate cycle to the next.
pub const CLIMATE_PERIODIC_MINS: u64 = 5;

/// Relative humidity below which the humidifier is switched on: 70 percent,
/// in units of `1 / SCALE`.
pub const RH_LO_THRESH: i64 = 458_752_000;

/// Relative humidity above which the humidifier is switched off: 80 percent,
/// in units of `1 / SCALE`.
pub const RH_HI_THRESH: i64 = 524_288_000;

/// 100 percent relative humidity, in units of `1 / SCALE`.
pub const RH_FULL: i64 = 655_360_000;

/// The dead band of the humidifier: two thresholds with `lo < hi`.
#[derive(Clone, Copy, Debug, PartialEq, Eq, Structural)]
pub struct Band {
    lo: i64,
    hi: i64,
}

/// One record of the climate log.
#[derive(Clone, Copy, Debug, PartialEq, Eq, Structural)]
pub struct ClimateLogEntry {
    pub timestamp: Timestamp,
    pub temperature: i64,
    pub humidity: i64,
}

/// Where a climate cycle stands.
#[derive(Clone, Copy, Debug, PartialEq, Eq, Structural)]
pub enum ClimateState {
    /// No cycle is running.
    Ready,
    /// The temperature was asked for.
    AwaitingTemperature,
    /// The temperature of this cycle is in; the humidity was asked for.
    AwaitingHumidity { temperature: i64 },
}

/// What happened since the cycle's last step.
#[derive(Clone, Copy, Debug, PartialEq, Eq)]
pub enum ClimateEvent {
    /// The period has elapsed.
    Tick,
    /// The temperature measurement ended, with this result.
    Temperature(Result<Reading, ShtError>),
    /// The humidity measurement ended, with this result.
    Humidity(Result<Reading, ShtError>),
}

/// What the cycle needs done next.
#[derive(Clone, Copy, Debug, PartialEq, Eq)]
pub enum ClimateAction {
    /// Measure the temperature and report `Temperature`.
    MeasureTemperature,
    /// Measure the humidity and report `Humidity`.
    MeasureHumidity,
    /// The cycle succeeded: append the record, if there is one, and drive the
    /// humidifier as told, if told. A record that cannot be written costs
    /// the record only.
    Commit { entry: Option<ClimateLogEntry>, humidifier: Option<Level> },
    /// The cycle failed on this error: touch neither line nor log.
    Abort(ShtError),
    /// The event belongs to no step of the cycle: do nothing.
    Ignore,
}

/// A humidity value held to the range from 0 to 100 percent.
pub open spec fn clamped(humidity: int) -> int {
    if humidity < 0 {
        0
    } else if humidity > RH_FULL {
        RH_FULL as int
    } else {
        humidity
    }
}

/// What a band with the given thresholds does to the humidifier at a given
/// humidity: on below the band, off above it, nothing inside.
pub open spec fn decision_of(lo: int, hi: int, humidity: int) -> Option<Level> {
    if humidity < lo {
        Some(Level::High)
    } else if humidity > hi {
        Some(Level::Low)
    } else {
        None
    }
}

/// The level of the humidifier line after a run of cycles with the given
/// humidity readings, first to last.
pub open spec fn level_after_readings(line: Level, lo: int, hi: int, readings: Seq<int>) -> Level
    decreases readings.len(),
{
    if readings.len() == 0 {
        line
    } else {
        crate::actuator::level_after(
            level_after_readings(line, lo, hi, readings.drop_last()),
            decision_of(lo, hi, clamped(readings.last())),
        )
    }
}

/// The record of a cycle, if the clock gave a time to stamp it with.
pub open spec fn record_of(clock: Option<Timestamp>, temperature: i64, humidity: i64) -> Option<
    ClimateLogEntry,
> {
    match clock {
        Some(timestamp) => Some(ClimateLogEntry { timestamp, temperature, humidity }),
        None => None,
    }
}

/// The step of the climate cycle: the state it moves to and what it asks for,
/// given what the clock reads where a record is stamped. The humidity is
/// clamped before it is compared and before it is recorded, and the
/// temperature recorded is that of the same cycle.
pub open spec fn climate_next(
    state: ClimateState,
    event: ClimateEvent,
    band: Band,
    clock: Option<Timestamp>,
) -> (ClimateState, ClimateAction) {
    match (state, event) {
        (ClimateState::Ready, ClimateEvent::Tick) => (
            ClimateState::AwaitingTemperature,
            ClimateAction::MeasureTemperature,
        ),
        (ClimateState::AwaitingTemperature, ClimateEvent::Temperature(Ok(reading))) => (
            ClimateState::AwaitingHumidity { temperature: reading.value },
            ClimateAction::MeasureHumidity,
        ),
        (ClimateState::AwaitingTemperature, ClimateEvent::Temperature(Err(error))) => (
            ClimateState::Ready,
            ClimateAction::Abort(error),
        ),
        (ClimateState::AwaitingHumidity { temperature }, ClimateEvent::Humidity(Ok(reading))) => (
            ClimateState::Ready,
            ClimateAction::Commit {
                entry: record_of(clock, temperature, clamped(reading.value as int) as i64),
                humidifier: decision_of(
                    band.lo() as int,
                    band.hi() as int,
                    clamped(reading.value as int),
                ),
            },
        ),
        (ClimateState::AwaitingHumidity { .. }, ClimateEvent::Humidity(Err(error))) => (
            ClimateState::Ready,
            ClimateAction::Abort(error),
        ),
        _ => (state, ClimateAction::Ignore),
    }
}

impl Band {
    /// The lower threshold.
    pub closed spec fn lo(self) -> i64 {
        self.lo
    }

    /// The upper threshold.
    pub closed spec fn hi(self) -> i64 {
        self.hi
    }

    /// What holds of every band that the program can hold.
    #[verifier::type_invariant]
    pub open spec fn wf(self) -> bool {
        self.lo() < self.hi()
    }


    /// The band between two thresholds, if the lower one is the lower one.
    pub fn new(lo: i64, hi: i64) -> (made: Option<Band>)
        ensures
            made is Some <==> lo < hi,
            made matches Some(band) ==> band.wf() && band.lo() == lo && band.hi() == hi,
    {
        if lo < hi {
            Some(Band { lo, hi })
        } else {
            None
        }
    }

    /// The band from `RH_LO_THRESH` to `RH_HI_THRESH`.
    pub fn standard() -> (band: Band)
        ensures
            band.wf(),
            band.lo() == RH_LO_THRESH,
            band.hi() == RH_HI_THRESH,
    {
        Band { lo: RH_LO_THRESH, hi: RH_HI_THRESH }
    }

    /// What to do with the humidifier at the given humidity: switch it on
    /// below the band, off above it, and leave it alone inside.
    pub fn decide(&self, humidity: i64) -> (decision: Option<Level>)
        ensures
            decision == decision_of(self.lo() as int, self.hi() as int, humidity as int),
    {
        if humidity < self.lo {
            Some(Level::High)
        } else if humidity > self.hi {
            Some(Level::Low)
        } else {
            None
        }
    }
}

/// Holds a humidity value to the range from 0 to 100 percent.
pub fn clamp_humidity(humidity: i64) -> (held: i64)
    ensures
        held == clamped(humidity as int),
        0 <= held <= RH_FULL,
{
    if humidity < 0 {
        0
    } else if humidity > RH_FULL {
        RH_FULL
    } else {
        humidity
    }
}

/// One step of the climate cycle, with the time to stamp a record with handed
/// in.
pub fn climate_step(
    state: ClimateState,
    event: ClimateEvent,
    band: Band,
    clock: Option<Timestamp>,
) -> (next: (ClimateState, ClimateAction))
    ensures
        next == climate_next(state, event, band, clock),
{
    match (state, event) {
        (ClimateState::Ready, ClimateEvent::Tick) => (
            ClimateState::AwaitingTemperature,
            ClimateAction::MeasureTemperature,
        ),
        (ClimateState::AwaitingTemperature, ClimateEvent::Temperature(Ok(reading))) => (
            ClimateState::AwaitingHumidity { temperature: reading.value },
            ClimateAction::MeasureHumidity,
        ),
        (ClimateState::AwaitingTemperature, ClimateEvent::Temperature(Err(error))) => (
            ClimateState::Ready,
            ClimateAction::Abort(error),
        ),
        (ClimateState::AwaitingHumidity { temperature }, ClimateEvent::Humidity(Ok(reading))) => {
            let humidity = clamp_humidity(reading.value);
            let entry = match clock {
                Some(timestamp) => Some(ClimateLogEntry { timestamp, temperature, humidity }),
                None => None,
            };
            (ClimateState::Ready, ClimateAction::Commit { entry, humidifier: band.decide(humidity) })
        },
        (ClimateState::AwaitingHumidity { .. }, ClimateEvent::Humidity(Err(error))) => (
            ClimateState::Ready,
            ClimateAction::Abort(error),
        ),
        _ => (state, ClimateAction::Ignore),
    }
}

/// One step of the climate cycle. Called with `Tick` when the period has
/// elapsed and then with the report on each measurement it asked for, until
/// it answers `Commit` or `Abort`. A record is stamped with the wall clock's
/// reading at the step that commits.
pub fn climate_service(state: ClimateState, event: ClimateEvent, band: Band) -> (next: (
    ClimateState,
    ClimateAction,
))
    ensures
        exists|clock: Option<Timestamp>| next == #[trigger] climate_next(state, event, band, clock),
        next.0 == climate_next(state, event, band, None).0,
        !(next.1 is Commit) ==> next == climate_next(state, event, band, None),
{
    let clock = match (state, event) {
        (ClimateState::AwaitingHumidity { .. }, ClimateEvent::Humidity(Ok(_))) => now(),
        _ => None,
    };
    climate_step(state, event, band, clock)
}

/// Seconds from one climate cycle to the next.
pub fn climate_period_secs() -> (seconds: u64)
    ensures
        seconds == 60 * CLIMATE_PERIODIC_MINS,
{
    60 * CLIMATE_PERIODIC_MINS
}

/// Inside the dead band nothing moves: while every reading of a run of cycles
/// lies between the two thresholds, the humidifier line stays where it was.
pub proof fn lemma_dead_band_holds(line: Level, band: Band, readings: Seq<int>)
    requires
        band.wf(),
        forall|i: int|
            0 <= i < readings.len() ==> band.lo() <= clamped(#[trigger] readings[i]) <= band.hi(),
    ensures
        level_after_readings(line, band.lo() as int, band.hi() as int, readings) == line,
    decreases readings.len(),
{
    if readings.len() > 0 {
        let earlier = readings.drop_last();
        assert forall|i: int| 0 <= i < earlier.len() implies band.lo() <= clamped(
            #[trigger] earlier[i],
        ) <= band.hi() by {
            assert(earlier[i] == readings[i]);
        }
        lemma_dead_band_holds(line, band, earlier);
        assert(readings.last() == readings[readings.len() - 1]);
    }
}

/// With `lo < hi` a decision is never both: below the band the humidifier
/// goes on, above it off, and a line that was decided on stays as decided
/// when the same reading comes again.
pub proof fn lemma_decision_settles(line: Level, band: Band, humidity: int)
    requires
        band.wf(),
    ensures
        humidity < band.lo() <==> decision_of(band.lo() as int, band.hi() as int, humidity)
            == Some(Level::High),
        humidity > band.hi() <==> decision_of(band.lo() as int, band.hi() as int, humidity)
            == Some(Level::Low),
        ({
            let once = level_after_readings(
                line,
                band.lo() as int,
                band.hi() as int,
                seq![humidity],
            );
            level_after_readings(once, band.lo() as int, band.hi() as int, seq![humidity]) == once
        }),
{
    let lo = band.lo() as int;
    let hi = band.hi() as int;
    assert(seq![humidity].drop_last() =~= Seq::<int>::empty());
    assert(seq![humidity].last() == humidity);
    reveal_with_fuel(level_after_readings, 2);
}

} // verus!
