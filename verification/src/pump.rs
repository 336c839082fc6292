//! The pump: a long-period pulse whose start times are recorded, so that the
//! period is kept across restarts.

use crate::actuator::{pulse, pulse_plan, PulseStep};
use crate::time::{in_window, lemma_shifted, now, whole_seconds, Timestamp};
use vstd::prelude::*;

verus! {

/// Pin of the pump relay.
pub const PUMP_PIN: u8 = 27;

/// Hours from one pump pulse to the next.
pub const PUMP_PERIODIC_HRS: u64 = 24;

/// Seconds the pump runs in each pulse.
pub const PUMP_DURATION_SECS: u64 = 60;

/// One record of the pump history: the pump was started at this time.
#[derive(Clone, Copy, Debug, PartialEq, Eq, Structural)]
pub struct PumpScheduleEntry {
    pub started_at: Timestamp,
}

/// Why the store of a history did not do as asked.
#[derive(Clone, Copy, Debug, PartialEq, Eq, Structural)]
pub enum StoreError {
    /// The history could not be read.
    Unreadable,
    /// The record could not be written.
    Unwritable,
    /// The record is older than the newest one in the history.
    OutOfOrder,
}

/// The pump's start records, oldest first. Records are only ever appended,
/// and none is older than the one before it.
#[derive(Debug)]
pub struct PumpHistory {
    entries: Vec<PumpScheduleEntry>,
}

/// Where a run of the pump stands.
#[derive(Clone, Copy, Debug, PartialEq, Eq, Structural)]
pub enum PumpState {
    /// No run is under way.
    Ready,
    /// The start record was handed to the store.
    Recording,
}

/// What happened since the run's last step.
#[derive(Clone, Copy, Debug, PartialEq, Eq)]
pub enum PumpEvent {
    /// The pump is due.
    Tick,
    /// The store answered the append of the start record.
    Recorded(Result<(), StoreError>),
}

/// What a run of the pump needs done next.
#[derive(Clone, Copy, Debug, PartialEq, Eq)]
pub enum PumpAction {
    /// Append this record to the history and report `Recorded`.
    Record(PumpScheduleEntry),
    /// The start is on record: pulse the pump for this many seconds.
    Pulse(u64),
    /// The start could not be put on record: leave the pump alone.
    Abort(StoreError),
    /// The event belongs to no step of the run: do nothing.
    Ignore,
}

/// Whether no record of a history is older than the one before it.
pub open spec fn ordered(history: Seq<Timestamp>) -> bool {
    forall|i: int, j: int|
        0 <= i <= j < history.len() ==> (#[trigger] history[i]).instant() <= (
        #[trigger] history[j]).instant()
}

/// Whether a history takes a record with the given start time: it does unless
/// the record is older than its newest.
pub open spec fn accepts(history: Seq<Timestamp>, started_at: Timestamp) -> bool {
    history.len() == 0 || history.last().instant() <= started_at.instant()
}

/// A history after the append of a record was asked for.
pub open spec fn appended(history: Seq<Timestamp>, started_at: Timestamp) -> Seq<Timestamp> {
    if accepts(history, started_at) {
        history.push(started_at)
    } else {
        history
    }
}

/// The most recent start on record, if there is any.
pub open spec fn most_recent(history: Seq<Timestamp>) -> Option<Timestamp> {
    if history.len() == 0 {
        None
    } else {
        Some(history.last())
    }
}

/// When the pump is next due: one period after its most recent start, or at
/// once, which is at the clock's reading, where it never ran. There is no due
/// time where it would lie past the year 9999, nor where the pump never ran
/// and the clock has no reading to give.
pub open spec fn due_after(last: Option<Timestamp>, clock: Option<Timestamp>, period: int) -> Option<
    Timestamp,
> {
    match last {
        Some(started_at) => if in_window(started_at.seconds() + period) {
            Some(started_at.shifted(period))
        } else {
            None
        },
        None => clock,
    }
}

/// What the store's answer to "when did the pump last start" comes to: a
/// history that cannot be read counts as one without records.
pub open spec fn known_start(answer: Result<Option<Timestamp>, StoreError>) -> Option<Timestamp> {
    match answer {
        Ok(last) => last,
        Err(_) => None,
    }
}

/// Whole seconds to wait from `clock` until `due`; none where `due` is not
/// in the future. Missed runs are not made up for.
pub open spec fn wait_until(due: Timestamp, clock: Timestamp) -> int {
    if clock.instant() < due.instant() {
        whole_seconds(due.instant() - clock.instant())
    } else {
        0
    }
}

/// The step of a run of the pump, given what the clock reads where the start
/// is recorded. The start goes on record before the pump moves, so that a
/// run cut short still uses up its period.
pub open spec fn pump_next(state: PumpState, event: PumpEvent, clock: Option<Timestamp>) -> (
    PumpState,
    PumpAction,
) {
    match (state, event) {
        (PumpState::Ready, PumpEvent::Tick) => match clock {
            Some(started_at) => (
                PumpState::Recording,
                PumpAction::Record(PumpScheduleEntry { started_at }),
            ),
            None => (PumpState::Ready, PumpAction::Abort(StoreError::Unwritable)),
        },
        (PumpState::Recording, PumpEvent::Recorded(Ok(_))) => (
            PumpState::Ready,
            PumpAction::Pulse(PUMP_DURATION_SECS),
        ),
        (PumpState::Recording, PumpEvent::Recorded(Err(error))) => (
            PumpState::Ready,
            PumpAction::Abort(error),
        ),
        _ => (state, PumpAction::Ignore),
    }
}

/// The history after `count` runs of the pump, the first at `first` and each
/// one `period` seconds after the one before.
pub open spec fn after_runs(history: Seq<Timestamp>, first: Timestamp, period: int, count: nat) -> Seq<
    Timestamp,
>
    decreases count,
{
    if count == 0 {
        history
    } else {
        appended(
            after_runs(history, first, period, (count - 1) as nat),
            first.shifted((count - 1) * period),
        )
    }
}

impl View for PumpHistory {
    type V = Seq<Timestamp>;

    closed spec fn view(&self) -> Seq<Timestamp> {
        Seq::new(self.entries@.len(), |i: int| self.entries@[i].started_at)
    }
}

impl PumpHistory {
    /// What holds of every history that `new` made and `append_start` filled:
    /// its records are in order and each names a time in the window.
    pub open spec fn wf(&self) -> bool {
        ordered(self@) && forall|i: int| 0 <= i < self@.len() ==> (#[trigger] self@[i]).wf()
    }


    /// A history without records.
    pub fn new() -> (history: PumpHistory)
        ensures
            history@ == Seq::<Timestamp>::empty(),
            history.wf(),
    {
        let history = PumpHistory { entries: Vec::new() };
        proof {
            assert(history@ =~= Seq::<Timestamp>::empty());
        }
        history
    }

    /// The number of records.
    pub fn len(&self) -> (count: usize)
        ensures
            count == self@.len(),
    {
        self.entries.len()
    }

    /// Appends the record of a start. A record older than the newest one is
    /// refused and the history left as it is.
    pub fn append_start(&mut self, started_at: Timestamp) -> (outcome: Result<(), StoreError>)
        requires
            old(self).wf(),
        ensures
            final(self)@ == appended(old(self)@, started_at),
            final(self).wf(),
            outcome == (if accepts(old(self)@, started_at) {
                Ok::<(), StoreError>(())
            } else {
                Err(StoreError::OutOfOrder)
            }),
    {
        proof {
            use_type_invariant(&started_at);
        }
        let count = self.entries.len();
        if count > 0 && started_at.is_before(&self.entries[count - 1].started_at) {
            assert(old(self)@.last() == old(self).entries@[count - 1].started_at);
            return Err(StoreError::OutOfOrder);
        }
        let ghost before = self@;
        assert(count > 0 ==> before.last() == self.entries@[count - 1].started_at);
        self.entries.push(PumpScheduleEntry { started_at });
        proof {
            assert(self@ =~= before.push(started_at));
            assert forall|i: int, j: int| 0 <= i <= j < self@.len() implies (#[trigger] self@[i]).instant()
                <= (#[trigger] self@[j]).instant() by {
                if j < before.len() {
                    assert(self@[i] == before[i] && self@[j] == before[j]);
                } else if i < before.len() {
                    assert(self@[i] == before[i]);
                    assert(before[i].instant() <= before[before.len() - 1].instant());
                }
            }
            assert forall|i: int| 0 <= i < self@.len() implies (#[trigger] self@[i]).wf() by {
                if i < before.len() {
                    assert(self@[i] == before[i]);
                }
            }
        }
        Ok(())
    }

    /// The most recent start on record, if there is any. No record is more
    /// recent than the one handed out.
    pub fn most_recent_start(&self) -> (last: Option<Timestamp>)
        requires
            self.wf(),
        ensures
            last == most_recent(self@),
            last matches Some(newest) ==> newest.wf() && forall|i: int|
                0 <= i < self@.len() ==> (#[trigger] self@[i]).instant() <= newest.instant(),
    {
        let count = self.entries.len();
        if count == 0 {
            None
        } else {
            assert(self@.last() == self.entries@[count - 1].started_at);
            assert(self@.last() == self@[count - 1]);
            Some(self.entries[count - 1].started_at)
        }
    }
}

/// Seconds from one pump pulse to the next.
pub fn pump_period_secs() -> (seconds: u64)
    ensures
        seconds == 3600 * PUMP_PERIODIC_HRS,
{
    3600 * PUMP_PERIODIC_HRS
}

/// When the pump is next due, given its most recent start, the clock's
/// reading and the pump's period in seconds.
pub fn next_due(last: Option<Timestamp>, clock: Option<Timestamp>, period: u64) -> (due: Option<
    Timestamp,
>)
    ensures
        due == due_after(last, clock, period as int),
        due matches Some(t) ==> t.wf(),
{
    match last {
        Some(started_at) => started_at.checked_add_secs(period),
        None => {
            proof {
                if let Some(reading) = clock {
                    use_type_invariant(&reading);
                }
            }
            clock
        },
    }
}

/// When the pump is next due after a restart, from what the store answered
/// when asked for the most recent start: one `period` later, or now where the
/// pump never ran or its history cannot be read.
pub fn get_next_pump_schedule(answer: Result<Option<Timestamp>, StoreError>, period: u64) -> (due:
    Option<Timestamp>)
    ensures
        exists|clock: Option<Timestamp>|
            due == #[trigger] due_after(known_start(answer), clock, period as int),
        known_start(answer) is Some ==> due == due_after(known_start(answer), None, period as int),
        due matches Some(t) ==> t.wf(),
{
    let last = match answer {
        Ok(last) => last,
        Err(_) => None,
    };
    let clock = match last {
        Some(_) => None,
        None => now(),
    };
    next_due(last, clock, period)
}

/// Whole seconds to wait from `clock` until the pump is due; none where it is
/// overdue.
pub fn duration_until(due: &Timestamp, clock: &Timestamp) -> (seconds: u64)
    ensures
        seconds == wait_until(*due, *clock),
{
    if clock.is_before(due) {
        proof {
            crate::time::lemma_whole_seconds_bounded(due.instant() - clock.instant());
        }
        let span = due.whole_seconds_since(clock);
        span as u64
    } else {
        0
    }
}

/// One step of a run of the pump, with the time of the start handed in.
pub fn pump_step(state: PumpState, event: PumpEvent, clock: Option<Timestamp>) -> (next: (
    PumpState,
    PumpAction,
))
    ensures
        next == pump_next(state, event, clock),
{
    match (state, event) {
        (PumpState::Ready, PumpEvent::Tick) => match clock {
            Some(started_at) => (
                PumpState::Recording,
                PumpAction::Record(PumpScheduleEntry { started_at }),
            ),
            None => (PumpState::Ready, PumpAction::Abort(StoreError::Unwritable)),
        },
        (PumpState::Recording, PumpEvent::Recorded(Ok(_))) => (
            PumpState::Ready,
            PumpAction::Pulse(PUMP_DURATION_SECS),
        ),
        (PumpState::Recording, PumpEvent::Recorded(Err(error))) => (
            PumpState::Ready,
            PumpAction::Abort(error),
        ),
        _ => (state, PumpAction::Ignore),
    }
}

/// One step of a run of the pump. Called with `Tick` when the pump is due and
/// then with the store's answer, until it answers `Pulse` or `Abort`. The
/// start is stamped with the wall clock's reading at the tick.
pub fn pump_service(state: PumpState, event: PumpEvent) -> (next: (PumpState, PumpAction))
    ensures
        exists|clock: Option<Timestamp>| next == #[trigger] pump_next(state, event, clock),
        !(state == PumpState::Ready && event == PumpEvent::Tick) ==> next == pump_next(
            state,
            event,
            None,
        ),
{
    let clock = match (state, event) {
        (PumpState::Ready, PumpEvent::Tick) => now(),
        _ => None,
    };
    pump_step(state, event, clock)
}

/// The steps that run the pump for the given number of seconds.
pub fn run_pump_interval(seconds: u64) -> (plan: Vec<PulseStep>)
    ensures
        plan@ == pulse_plan(seconds),
{
    pulse(seconds)
}

/// A record that a history takes becomes its most recent one, and the pump is
/// next due exactly one period after it, whatever the clock reads.
pub proof fn lemma_recovery_after_append(
    history: Seq<Timestamp>,
    started_at: Timestamp,
    clock: Option<Timestamp>,
    period: int,
)
    requires
        started_at.wf(),
        accepts(history, started_at),
        in_window(started_at.seconds() + period),
    ensures
        most_recent(appended(history, started_at)) == Some(started_at),
        due_after(most_recent(appended(history, started_at)), clock, period) == Some(
            started_at.shifted(period),
        ),
        started_at.shifted(period).instant() == started_at.instant() + period * 1_000_000_000,
{
    lemma_shifted(started_at, period);
}

/// Appends keep a history in order.
pub proof fn lemma_append_keeps_order(history: Seq<Timestamp>, started_at: Timestamp)
    requires
        ordered(history),
    ensures
        ordered(appended(history, started_at)),
{
    let after = appended(history, started_at);
    if accepts(history, started_at) {
        assert forall|i: int, j: int| 0 <= i <= j < after.len() implies (#[trigger] after[i]).instant()
            <= (#[trigger] after[j]).instant() by {
            if j < history.len() {
                assert(after[i] == history[i] && after[j] == history[j]);
            } else if i < history.len() {
                assert(after[i] == history[i]);
                assert(history[i].instant() <= history[history.len() - 1].instant());
            }
        }
    }
}

/// Recovery keeps the period: when the pump runs `count + 1` times, first at
/// `first` and then each time it falls due, the due time recovered after each
/// run lies exactly one period after the due time recovered after the run
/// before.
pub proof fn lemma_recovery_keeps_period(
    history: Seq<Timestamp>,
    first: Timestamp,
    clock: Option<Timestamp>,
    period: int,
    count: nat,
)
    requires
        first.wf(),
        accepts(history, first),
        period >= 0,
        in_window(first.seconds() + (count + 1) * period),
    ensures
        most_recent(after_runs(history, first, period, count + 1)) == Some(
            first.shifted(count * period),
        ),
        due_after(most_recent(after_runs(history, first, period, count + 1)), clock, period)
            == Some(first.shifted((count + 1) * period)),
        first.shifted((count + 1) * period).instant() == first.shifted(count * period).instant()
            + period * 1_000_000_000,
    decreases count,
{
    assert(0 <= count * period <= (count + 1) * period) by (nonlinear_arith)
        requires
            period >= 0,
            count >= 0,
    ;
    assert((count + 1) * period == count * period + period) by (nonlinear_arith);
    lemma_shifted(first, count * period);
    lemma_shifted(first, (count + 1) * period);
    let run = first.shifted(count * period);
    if count == 0 {
        assert((1 - 1) * period == 0) by (nonlinear_arith);
        reveal_with_fuel(after_runs, 2);
        assert(after_runs(history, first, period, 1) == appended(history, first.shifted(0)));
        lemma_recovery_after_append(history, first, clock, period);
    } else {
        let earlier = (count - 1) as nat;
        assert(earlier * period + period == count * period) by (nonlinear_arith)
            requires
                earlier + 1 == count,
        ;
        lemma_recovery_keeps_period(history, first, clock, period, earlier);
        let before = after_runs(history, first, period, count);
        lemma_shifted(first, earlier * period);
        assert(before.last() == first.shifted(earlier * period));
        assert(accepts(before, run));
        assert(after_runs(history, first, period, count + 1) == appended(before, run));
        lemma_recovery_after_append(before, run, clock, period);
        assert(run.shifted(period) == first.shifted(count * period + period));
    }
}

} // verus!
