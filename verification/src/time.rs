//! Points in time and spans of time.
use crate::outside::clock::utc_now;
use vstd::prelude::*;

verus! {

/// The first second of the calendar: the first of January of the year -262143.
pub const MIN_SECS: i64 = -8_334_601_228_800;

/// The last second of the calendar: the end of the year 262142.
pub const MAX_SECS: i64 = 8_210_266_876_799;

/// Nanoseconds in a second.
pub const NANOS_PER_SEC: i128 = 1_000_000_000;

/// Nanoseconds in a millisecond.
pub const NANOS_PER_MILLI: i128 = 1_000_000;

/// Nanoseconds in a microsecond.
pub const NANOS_PER_MICRO: i128 = 1_000;

/// The point `nanos` nanoseconds after the Unix epoch is in the calendar.
pub open spec fn in_calendar(nanos: int) -> bool {
    MIN_SECS * NANOS_PER_SEC <= nanos && nanos < (MAX_SECS + 1) * NANOS_PER_SEC
}

/// The milliseconds of a signed number of nanoseconds, rounded toward zero.
pub open spec fn whole_millis(nanos: int) -> int {
    if nanos >= 0 {
        nanos / (NANOS_PER_MILLI as int)
    } else {
        -((-nanos) / (NANOS_PER_MILLI as int))
    }
}

/// `n / d`, rounded down.
fn floor_div(n: i128, d: i128) -> (q: i128)
    requires
        0 < d,
        i128::MIN < n,
    ensures
        q == (n as int) / (d as int),
{
    if n >= 0 {
        n / d
    } else {
        let m: i128 = (-(n + 1)) / d;
        proof {
            let (a, b) = (n as int, d as int);
            let k = (-(a + 1)) / b;
            assert(a / b == -k - 1) by (nonlinear_arith)
                requires
                    a < 0,
                    b > 0,
                    k == (-(a + 1)) / b,
            {
                let r = (-(a + 1)) % b;
                assert(-(a + 1) == b * k + r);
                assert(a == b * (-k - 1) + (b - 1 - r));
                vstd::arithmetic::div_mod::lemma_fundamental_div_mod_converse(
                    a,
                    b,
                    -k - 1,
                    b - 1 - r,
                );
            }
            assert(k <= -(a + 1)) by (nonlinear_arith)
                requires
                    a < 0,
                    b > 0,
                    k == (-(a + 1)) / b,
            {
                vstd::arithmetic::div_mod::lemma_div_is_ordered_by_denominator(-(a + 1), 1, b);
            }
        }
        -m - 1
    }
}

/// A point in time, in UTC, with nanosecond precision.
#[derive(Clone, Copy, Debug, PartialEq, Eq, Structural)]
pub struct Dt {
    nanos: i128,
}

impl View for Dt {
    type V = int;

    /// The nanoseconds since the Unix epoch.
    closed spec fn view(&self) -> int {
        self.nanos as int
    }
}

impl Dt {
    #[verifier::type_invariant]
    spec fn inv(self) -> bool {
        in_calendar(self.nanos as int)
    }

    /// The point `micros` microseconds after the Unix epoch, or `None` where
    /// the calendar does not reach.
    pub fn from_timestamp_micros(micros: i64) -> (dt: Option<Dt>)
        ensures
            dt is Some <==> in_calendar(micros * NANOS_PER_MICRO),
            dt matches Some(dt) ==> dt@ == micros * NANOS_PER_MICRO,
    {
        let nanos: i128 = (micros as i128) * NANOS_PER_MICRO;
        Self::from_timestamp_nanos(nanos)
    }

    /// The point `nanos` nanoseconds after the Unix epoch, or `None` where the
    /// calendar does not reach.
    pub fn from_timestamp_nanos(nanos: i128) -> (dt: Option<Dt>)
        ensures
            dt is Some <==> in_calendar(nanos as int),
            dt matches Some(dt) ==> dt@ == nanos,
    {
        if (MIN_SECS as i128) * NANOS_PER_SEC <= nanos && nanos < (MAX_SECS as i128 + 1)
            * NANOS_PER_SEC {
            Some(Dt { nanos })
        } else {
            None
        }
    }

    /// Points in time at the same distance from the epoch are the same.
    pub proof fn lemma_same_point(a: Dt, b: Dt)
        requires
            a@ == b@,
        ensures
            a == b,
    {
    }

    /// Reads the wall clock.
    pub fn now() -> (dt: Dt)
        ensures
            in_calendar(dt@),
            dt@ >= 0,
    {
        let (secs, nanos) = utc_now();
        Self::from_seconds_and_nanos(secs, nanos)
    }

    /// The point `secs` seconds after the Unix epoch and `nanos` nanoseconds
    /// beyond them.
    pub fn from_seconds_and_nanos(secs: i64, nanos: u32) -> (dt: Dt)
        requires
            MIN_SECS <= secs <= MAX_SECS,
            nanos < NANOS_PER_SEC,
        ensures
            dt@ == secs * NANOS_PER_SEC + nanos,
            in_calendar(dt@),
    {
        Dt { nanos: (secs as i128) * NANOS_PER_SEC + (nanos as i128) }
    }

    /// Whole seconds since the Unix epoch, rounded down, and the nanoseconds
    /// beyond them.
    pub fn seconds_and_nanos(&self) -> (parts: (i64, u32))
        ensures
            parts.0 * NANOS_PER_SEC + parts.1 == self@,
            parts.1 < NANOS_PER_SEC,
            MIN_SECS <= parts.0 <= MAX_SECS,
    {
        proof {
            use_type_invariant(self);
        }
        let secs: i128 = floor_div(self.nanos, NANOS_PER_SEC);
        let rest: i128 = self.nanos - secs * NANOS_PER_SEC;
        (secs as i64, rest as u32)
    }

    /// Microseconds since the Unix epoch, rounded down.
    pub fn timestamp_micros(&self) -> (micros: i64)
        ensures
            micros == self@ / (NANOS_PER_MICRO as int),
            in_calendar(self@),
    {
        proof {
            use_type_invariant(self);
        }
        floor_div(self.nanos, NANOS_PER_MICRO) as i64
    }

    /// Milliseconds since the Unix epoch, rounded down.
    pub fn timestamp_millis(&self) -> (millis: i64)
        ensures
            millis == self@ / (NANOS_PER_MILLI as int),
    {
        proof {
            use_type_invariant(self);
        }
        floor_div(self.nanos, NANOS_PER_MILLI) as i64
    }

    /// The point `millis` milliseconds later, or `None` where the calendar
    /// does not reach.
    pub fn checked_add_millis(&self, millis: i64) -> (dt: Option<Dt>)
        ensures
            dt is Some <==> in_calendar(self@ + millis * NANOS_PER_MILLI),
            dt matches Some(dt) ==> dt@ == self@ + millis * NANOS_PER_MILLI,
    {
        proof {
            use_type_invariant(self);
        }
        Self::from_timestamp_nanos(self.nanos + (millis as i128) * NANOS_PER_MILLI)
    }

    /// The point `millis` milliseconds later.
    pub fn add_millis(&self, millis: i64) -> (dt: Dt)
        requires
            in_calendar(self@ + millis * NANOS_PER_MILLI),
        ensures
            dt@ == self@ + millis * NANOS_PER_MILLI,
    {
        proof {
            use_type_invariant(self);
        }
        Dt { nanos: self.nanos + (millis as i128) * NANOS_PER_MILLI }
    }

    /// The whole milliseconds from `earlier` to this point, rounded toward
    /// zero; negative where this point is the earlier one.
    pub fn millis_since(&self, earlier: &Dt) -> (millis: i64)
        ensures
            millis == whole_millis(self@ - earlier@),
    {
        proof {
            use_type_invariant(self);
            use_type_invariant(earlier);
        }
        let diff: i128 = self.nanos - earlier.nanos;
        let millis: i128 = if diff >= 0 {
            diff / NANOS_PER_MILLI
        } else {
            -((-diff) / NANOS_PER_MILLI)
        };
        millis as i64
    }

    /// The time from `earlier` to this point; nothing where this point is the
    /// earlier one.
    pub fn span_since(&self, earlier: &Dt) -> (span: TimeSpan)
        ensures
            span.wf(),
            span@ == if self@ < earlier@ {
                0
            } else {
                self@ - earlier@
            },
    {
        proof {
            use_type_invariant(self);
            use_type_invariant(earlier);
        }
        let diff: i128 = self.nanos - earlier.nanos;
        if diff < 0 {
            return TimeSpan { secs: 0, nanos: 0 };
        }
        let secs: i128 = diff / NANOS_PER_SEC;
        let rest: i128 = diff % NANOS_PER_SEC;
        TimeSpan { secs: secs as u64, nanos: rest as u32 }
    }
}

impl Default for Dt {
    /// The Unix epoch.
    fn default() -> (dt: Dt)
        ensures
            dt@ == 0,
    {
        Dt { nanos: 0 }
    }
}

/// A span of time: whole seconds and the nanoseconds beyond them.
#[derive(Clone, Copy, Debug, PartialEq, Eq, Hash, Structural)]
pub struct TimeSpan {
    /// Whole seconds.
    pub secs: u64,
    /// Nanoseconds beyond the whole seconds.
    pub nanos: u32,
}

impl View for TimeSpan {
    type V = int;

    /// The span in nanoseconds.
    open spec fn view(&self) -> int {
        self.secs * NANOS_PER_SEC + self.nanos
    }
}

impl TimeSpan {
    /// Less than a second lies beyond the whole seconds.
    pub open spec fn wf(self) -> bool {
        self.nanos < NANOS_PER_SEC
    }
}

impl Default for TimeSpan {
    /// No time at all.
    fn default() -> (span: TimeSpan)
        ensures
            span.wf(),
            span@ == 0,
    {
        TimeSpan { secs: 0, nanos: 0 }
    }
}

/// Whole milliseconds are the milliseconds that fit in a span, forwards and
/// backwards alike: less than one millisecond is left over, and turning a span round
/// turns its milliseconds round.
pub proof fn law_whole_millis_leave_less_than_one(nanos: int)
    ensures
        nanos >= 0 ==> 0 <= whole_millis(nanos) * 1_000_000 <= nanos < whole_millis(nanos)
            * 1_000_000 + 1_000_000,
        nanos < 0 ==> whole_millis(nanos) <= 0,
        whole_millis(-nanos) == -whole_millis(nanos),
{
}

/// The milliseconds that were put into a span come out of it.
pub proof fn law_whole_millis_undo_millis(millis: int)
    ensures
        whole_millis(millis * 1_000_000) == millis,
{
}

/// The calendar is one stretch of time: what lies between two of its points is in
/// it, it holds the Unix epoch, and its seconds are the ones from the first to the
/// last.
pub proof fn law_calendar_is_one_stretch(first: int, between: int, last: int, secs: i64, nanos: u32)
    ensures
        in_calendar(first) && in_calendar(last) && first <= between <= last ==> in_calendar(
            between,
        ),
        in_calendar(0),
        nanos < 1_000_000_000 ==> (in_calendar(secs * 1_000_000_000 + nanos) <==> MIN_SECS <= secs
            <= MAX_SECS),
        MIN_SECS == -8_334_601_228_800 && MAX_SECS == 8_210_266_876_799,
{
}

} // verus!
