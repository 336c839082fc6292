//! Points in time, as whole seconds since the Unix epoch and nanoseconds
//! within the second, and the calendar arithmetic on them, which `chrono`
//! performs.

use chrono::{DateTime, TimeDelta, Utc};
use vstd::prelude::*;

verus! {

/// First second that a `Timestamp` can name: 0001-01-01T00:00:00Z.
pub const MIN_SECS: i64 = -62_135_596_800;

/// Last second that a `Timestamp` can name: 9999-12-31T23:59:59Z.
pub const MAX_SECS: i64 = 253_402_300_799;

/// Nanoseconds in one second.
pub const NANOS_PER_SEC: u32 = 1_000_000_000;

/// Seconds from the first second of the window to its last.
pub const WINDOW_SECS: u64 = 315_537_897_599;

/// A point in time between the years 1 and 9999, in UTC, without leap
/// seconds.
#[derive(Clone, Copy, Debug, PartialEq, Eq, Structural)]
pub struct Timestamp {
    secs: i64,
    nanos: u32,
}

/// Whether a second count lies in the years that a `Timestamp` covers.
pub open spec fn in_window(secs: int) -> bool {
    MIN_SECS <= secs <= MAX_SECS
}

/// A span of nanoseconds in whole seconds, rounded toward zero.
pub open spec fn whole_seconds(nanos: int) -> int {
    if nanos >= 0 {
        nanos / 1_000_000_000
    } else {
        -((-nanos) / 1_000_000_000)
    }
}

/// Whole seconds from one point, given as seconds and nanoseconds, back to
/// another, rounded toward zero.
pub open spec fn span_in_seconds(secs: int, nanos: int, from_secs: int, from_nanos: int) -> i64 {
    whole_seconds((secs - from_secs) * 1_000_000_000 + (nanos - from_nanos)) as i64
}

/// Calls `chrono::DateTime::checked_add_signed` on the date and time that
/// `DateTime::from_timestamp` makes of `secs` and `nanos`, with a span of
/// `delta` whole seconds, and hands back the sum as `timestamp` and
/// `timestamp_subsec_nanos` give it.
///
/// Trusted: a sum that `chrono` returns is `delta` seconds away and keeps the
/// nanoseconds, and `chrono` returns one whenever the sum lies between the
/// years 1 and 9999, which its documented range of about 262,000 years to
/// either side of the epoch covers.
#[verifier::external_body]
fn shift_seconds(secs: i64, nanos: u32, delta: i64) -> (shifted: Option<(i64, u32)>)
    requires
        in_window(secs as int),
        nanos < NANOS_PER_SEC,
    ensures
        shifted matches Some(moved) ==> moved.0 == secs + delta && moved.1 == nanos,
        in_window(secs + delta) ==> shifted is Some,
{
    let start = DateTime::<Utc>::from_timestamp(secs, nanos)?;
    let moved = start.checked_add_signed(TimeDelta::try_seconds(delta)?)?;
    Some((moved.timestamp(), moved.timestamp_subsec_nanos()))
}

/// Calls `chrono::DateTime::signed_duration_since` on the two dates and times
/// that `DateTime::from_timestamp` makes of its arguments, and
/// `TimeDelta::num_seconds` on the span between them.
///
/// Trusted: for two points between the years 1 and 9999 the answer is there
/// and is the span from the second point to the first in whole seconds,
/// rounded toward zero.
#[verifier::external_body]
fn seconds_between(secs: i64, nanos: u32, from_secs: i64, from_nanos: u32) -> (span: Option<i64>)
    requires
        in_window(secs as int),
        nanos < NANOS_PER_SEC,
        in_window(from_secs as int),
        from_nanos < NANOS_PER_SEC,
    ensures
        span == Some(span_in_seconds(secs as int, nanos as int, from_secs as int, from_nanos as int)),
{
    let later = DateTime::<Utc>::from_timestamp(secs, nanos)?;
    let earlier = DateTime::<Utc>::from_timestamp(from_secs, from_nanos)?;
    Some(later.signed_duration_since(earlier).num_seconds())
}

/// Calls `chrono::Utc::now` and takes the reading apart with `timestamp` and
/// `timestamp_subsec_nanos`. Nothing is claimed of what the clock says.
#[verifier::external_body]
fn wall_clock() -> (reading: (i64, u32)) {
    let reading = Utc::now();
    (reading.timestamp(), reading.timestamp_subsec_nanos())
}

impl Timestamp {
    /// Whole seconds since 1970-01-01T00:00:00Z.
    pub closed spec fn seconds(self) -> int {
        self.secs as int
    }

    /// Nanoseconds since the last whole second.
    pub closed spec fn subsec(self) -> int {
        self.nanos as int
    }

    /// Nanoseconds since the epoch: the number by which timestamps are
    /// ordered.
    pub open spec fn instant(self) -> int {
        self.seconds() * 1_000_000_000 + self.subsec()
    }

    /// What holds of every timestamp that the program can hold.
    #[verifier::type_invariant]
    pub open spec fn wf(self) -> bool {
        in_window(self.seconds()) && 0 <= self.subsec() < NANOS_PER_SEC
    }


    /// The timestamp `span` seconds away, at the same place within the
    /// second. It means something only where that second lies in the window.
    pub closed spec fn shifted(self, span: int) -> Timestamp {
        Timestamp { secs: (self.secs + span) as i64, nanos: self.nanos }
    }

    /// The timestamp `secs` seconds and `nanos` nanoseconds after the epoch,
    /// if it lies in the window and `nanos` is less than a second.
    pub fn new(secs: i64, nanos: u32) -> (made: Option<Timestamp>)
        ensures
            made is Some <==> in_window(secs as int) && nanos < NANOS_PER_SEC,
            made matches Some(t) ==> t.wf() && t.seconds() == secs && t.subsec() == nanos,
    {
        if MIN_SECS <= secs && secs <= MAX_SECS && nanos < NANOS_PER_SEC {
            Some(Timestamp { secs, nanos })
        } else {
            None
        }
    }

    /// Whole seconds since the epoch.
    pub fn secs(&self) -> (secs: i64)
        ensures
            secs == self.seconds(),
            in_window(secs as int),
    {
        proof {
            use_type_invariant(self);
        }
        self.secs
    }

    /// Nanoseconds since the last whole second.
    pub fn nanos(&self) -> (nanos: u32)
        ensures
            nanos == self.subsec(),
            nanos < NANOS_PER_SEC,
    {
        proof {
            use_type_invariant(self);
        }
        self.nanos
    }

    /// Whether `self` is strictly earlier than `other`.
    pub fn is_before(&self, other: &Timestamp) -> (earlier: bool)
        ensures
            earlier == (self.instant() < other.instant()),
    {
        proof {
            use_type_invariant(self);
            use_type_invariant(other);
        }
        self.secs < other.secs || (self.secs == other.secs && self.nanos < other.nanos)
    }

    /// The timestamp `span` seconds later, unless that leaves the window.
    pub fn checked_add_secs(&self, span: u64) -> (later: Option<Timestamp>)
        ensures
            later == (if in_window(self.seconds() + span) {
                Some(self.shifted(span as int))
            } else {
                None
            }),
            later matches Some(t) ==> t.wf(),
    {
        proof {
            use_type_invariant(self);
        }
        if span > WINDOW_SECS {
            return None;
        }
        let delta: i64 = span as i64;
        match shift_seconds(self.secs, self.nanos, delta) {
            Some((secs, nanos)) => Timestamp::new(secs, nanos),
            None => None,
        }
    }

    /// Whole seconds from `earlier` to `self`, rounded toward zero; negative
    /// where `self` is the earlier one.
    pub fn whole_seconds_since(&self, earlier: &Timestamp) -> (span: i64)
        ensures
            span == whole_seconds(self.instant() - earlier.instant()),
    {
        proof {
            use_type_invariant(self);
            use_type_invariant(earlier);
            lemma_whole_seconds_bounded(self.instant() - earlier.instant());
        }
        match seconds_between(self.secs, self.nanos, earlier.secs, earlier.nanos) {
            Some(span) => span,
            None => 0,
        }
    }
}

/// The wall clock's reading, if it lies in the window.
pub fn now() -> (reading: Option<Timestamp>)
    ensures
        reading matches Some(t) ==> t.wf(),
{
    let (secs, nanos) = wall_clock();
    Timestamp::new(secs, nanos)
}

/// Rounding toward zero keeps a span's sign and does not lengthen it.
pub proof fn lemma_whole_seconds_bounded(nanos: int)
    ensures
        nanos >= 0 ==> 0 <= whole_seconds(nanos) * 1_000_000_000 <= nanos,
        nanos <= 0 ==> nanos <= whole_seconds(nanos) * 1_000_000_000 <= 0,
        nanos >= 0 ==> nanos < (whole_seconds(nanos) + 1) * 1_000_000_000,
        nanos <= 0 ==> (whole_seconds(nanos) - 1) * 1_000_000_000 < nanos,
{
}

/// Shifting a timestamp within the window moves its instant by whole seconds
/// and nothing else, and shifts add up.
pub proof fn lemma_shifted(t: Timestamp, span: int)
    requires
        t.wf(),
        in_window(t.seconds() + span),
    ensures
        t.shifted(span).wf(),
        t.shifted(span).seconds() == t.seconds() + span,
        t.shifted(span).subsec() == t.subsec(),
        t.shifted(span).instant() == t.instant() + span * 1_000_000_000,
        t.shifted(0) == t,
        forall|more: int|
            in_window(t.seconds() + span + more) ==> #[trigger] t.shifted(span).shifted(more)
                == t.shifted(span + more),
{
}

/// Two well-formed timestamps at the same instant are the same timestamp.
pub proof fn lemma_instant_decides(a: Timestamp, b: Timestamp)
    requires
        a.wf(),
        b.wf(),
        a.instant() == b.instant(),
    ensures
        a == b,
{
}

} // verus!
