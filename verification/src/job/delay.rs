//! When a job becomes eligible to run.
use crate::job::cron::{self, CronError, CronSchedule};
use crate::outside::cron as outside_cron;
use crate::time::{self, Dt, NANOS_PER_MILLI};
use vstd::prelude::*;

verus! {

/// Controls when a job becomes eligible to run.
#[derive(Debug)]
pub enum JobDelay {
    /// Run after this many milliseconds; at once where it is zero.
    TimeMilis(i64),
    /// Run at the next occurrence of a cron schedule.
    FromCron(Box<CronSchedule>),
}

impl Default for JobDelay {
    /// Run at once.
    fn default() -> (delay: Self)
        ensures
            delay == JobDelay::TimeMilis(0),
    {
        JobDelay::TimeMilis(0)
    }
}

impl JobDelay {
    /// The milliseconds of the Unix time at which a job with this delay that
    /// is looked at at `nanos` becomes eligible; `None` for a job that is
    /// eligible at once and for a schedule that has no further occurrence.
    pub open spec fn next_millis(self, nanos: int) -> Option<int> {
        match self {
            JobDelay::TimeMilis(ms) => if ms <= 0 {
                None
            } else {
                Some((nanos + ms * NANOS_PER_MILLI) / (NANOS_PER_MILLI as int))
            },
            JobDelay::FromCron(schedule) => match cron::schedule_next(schedule.pattern@, nanos) {
                Some(next) => Some(next / (NANOS_PER_MILLI as int)),
                None => None,
            },
        }
    }

    /// The delay does not lead past the calendar's end when it is looked at at
    /// `nanos`.
    pub open spec fn fits_calendar(self, nanos: int) -> bool {
        self matches JobDelay::TimeMilis(ms) ==> ms <= 0 || time::in_calendar(
            nanos + ms * NANOS_PER_MILLI,
        )
    }

    /// The delay in milliseconds relative to `nanos`; `None` where a schedule
    /// has no further occurrence.
    pub open spec fn diff_millis(self, nanos: int) -> Option<int> {
        match self {
            JobDelay::TimeMilis(ms) => Some(ms as int),
            JobDelay::FromCron(schedule) => match cron::schedule_next(schedule.pattern@, nanos) {
                Some(next) => Some(time::whole_millis(next - nanos)),
                None => None,
            },
        }
    }

    /// The Unix time in milliseconds at which a job with this delay that is
    /// looked at at `ts` becomes eligible to run, or `None` where it is
    /// eligible at once or never.
    pub fn next_occurrance_timestamp_ms_at(&self, ts: &Dt) -> (next: Option<i64>)
        requires
            self.fits_calendar(ts@),
        ensures
            match next {
                Some(next) => self.next_millis(ts@) == Some(next as int),
                None => self.next_millis(ts@) is None,
            },
    {
        match self {
            JobDelay::TimeMilis(ms) => {
                if *ms <= 0 {
                    return None;
                }
                Some(ts.add_millis(*ms).timestamp_millis())
            },
            JobDelay::FromCron(schedule) => match schedule.next_after(ts) {
                Some(next) => Some(next.timestamp_millis()),
                None => None,
            },
        }
    }

    /// The Unix time in milliseconds at which a job with this delay becomes
    /// eligible to run, as of now, or `None` where it is eligible at once or
    /// never, or where the calendar does not reach.
    pub fn next_occurrance_timestamp_ms(&self) -> (next: Option<i64>)
        ensures
            exists|ts: Dt|
                match next {
                    Some(next) => self.fits_calendar(ts@) && #[trigger] self.next_millis(ts@)
                        == Some(next as int),
                    None => self.fits_calendar(ts@) ==> self.next_millis(ts@) is None,
                },
    {
        let ts = Dt::now();
        let ghost at = ts;
        if let JobDelay::TimeMilis(ms) = self {
            if *ms > 0 && ts.checked_add_millis(*ms).is_none() {
                assert(!self.fits_calendar(at@));
                assert(self.next_millis(at@) == self.next_millis(at@));
                return None;
            }
        }
        let next = self.next_occurrance_timestamp_ms_at(&ts);
        assert(self.next_millis(at@) == self.next_millis(at@));
        next
    }

    /// The delay in milliseconds relative to `dt`: the stored value, or the
    /// time to the next occurrence of the schedule after `dt`.
    pub fn as_diff_ms(&self, dt: &Dt) -> (diff: i64)
        requires
            self.diff_millis(dt@) is Some,
        ensures
            self.diff_millis(dt@) == Some(diff as int),
    {
        match self {
            JobDelay::TimeMilis(ms) => *ms,
            JobDelay::FromCron(schedule) => {
                let next = schedule.next_after(dt).unwrap();
                next.millis_since(dt)
            },
        }
    }

    /// The delay in milliseconds relative to `dt`, or `None` where the
    /// schedule has no occurrence after `dt`.
    pub fn checked_diff_ms(&self, dt: &Dt) -> (diff: Option<i64>)
        ensures
            match diff {
                Some(diff) => self.diff_millis(dt@) == Some(diff as int),
                None => self.diff_millis(dt@) is None,
            },
    {
        if let JobDelay::FromCron(schedule) = self {
            if schedule.next_after(dt).is_none() {
                return None;
            }
        }
        Some(self.as_diff_ms(dt))
    }
}

impl Clone for JobDelay {
    fn clone(&self) -> (res: Self)
        ensures
            res == *self,
    {
        match self {
            JobDelay::TimeMilis(ms) => JobDelay::TimeMilis(*ms),
            JobDelay::FromCron(schedule) => {
                let schedule: &CronSchedule = schedule;
                JobDelay::FromCron(Box::new(schedule.clone()))
            },
        }
    }
}

impl From<CronSchedule> for JobDelay {
    fn from(value: CronSchedule) -> (delay: Self) {
        JobDelay::FromCron(Box::new(value))
    }
}

impl vstd::std_specs::convert::FromSpecImpl<CronSchedule> for JobDelay {
    open spec fn obeys_from_spec() -> bool {
        true
    }

    open spec fn from_spec(value: CronSchedule) -> Self {
        JobDelay::FromCron(Box::new(value))
    }
}

impl From<i64> for JobDelay {
    fn from(value: i64) -> (delay: Self) {
        JobDelay::TimeMilis(value)
    }
}

impl vstd::std_specs::convert::FromSpecImpl<i64> for JobDelay {
    open spec fn obeys_from_spec() -> bool {
        true
    }

    open spec fn from_spec(value: i64) -> Self {
        JobDelay::TimeMilis(value)
    }
}

impl<'a> TryFrom<&'a str> for JobDelay {
    type Error = CronError;

    /// Parses a cron expression.
    fn try_from(value: &'a str) -> (delay: Result<Self, CronError>)
        ensures
            match delay {
                Ok(delay) => outside_cron::cron_check(value@) is Ok && (delay matches
                    JobDelay::FromCron(schedule) && schedule.pattern@ == value@),
                Err(error) => outside_cron::cron_check(value@) == Err::<(), Seq<char>>(
                    error.message@,
                ),
            },
    {
        match CronSchedule::parse(value) {
            Ok(schedule) => Ok(JobDelay::FromCron(Box::new(schedule))),
            Err(error) => Err(error),
        }
    }
}

impl<'a> vstd::std_specs::convert::TryFromSpecImpl<&'a str> for JobDelay {
    /// The contract stands on `try_from` itself: a value of this type that
    /// holds a given text cannot be written down.
    open spec fn obeys_try_from_spec() -> bool {
        false
    }

    open spec fn try_from_spec(value: &'a str) -> Result<Self, CronError> {
        arbitrary()
    }
}

/// A job that is delayed by some milliseconds becomes eligible exactly that much
/// later, whenever it is looked at; one without delay, or with a negative one, is
/// eligible at once. Its delay is the number it was given.
pub proof fn law_delay_is_kept(ms: i64, nanos: int, other: int)
    ensures
        ms > 0 ==> JobDelay::TimeMilis(ms).next_millis(nanos) == Some(nanos / 1_000_000 + ms),
        ms <= 0 ==> JobDelay::TimeMilis(ms).next_millis(nanos) is None,
        JobDelay::TimeMilis(ms).diff_millis(nanos) == Some(ms as int),
        JobDelay::TimeMilis(ms).diff_millis(nanos) == JobDelay::TimeMilis(ms).diff_millis(other),
        JobDelay::TimeMilis(ms).fits_calendar(nanos) <==> ms <= 0 || time::in_calendar(
            nanos + ms * 1_000_000,
        ),
{
    assert((nanos + ms * 1_000_000) / 1_000_000 == nanos / 1_000_000 + ms) by (nonlinear_arith);
}

/// Of two jobs that are looked at at the same time, the one with the longer delay
/// becomes eligible later, by the difference of their delays; and of two points in
/// time, the later one never leads to the earlier eligibility.
pub proof fn law_longer_delay_is_later(a: i64, b: i64, nanos: int, later: int)
    requires
        0 < a < b,
        nanos <= later,
    ensures
        JobDelay::TimeMilis(b).next_millis(nanos)->0 - JobDelay::TimeMilis(a).next_millis(nanos)->0
            == b - a,
        JobDelay::TimeMilis(a).next_millis(nanos)->0 <= JobDelay::TimeMilis(a).next_millis(
            later,
        )->0,
{
    law_delay_is_kept(a, nanos, later);
    law_delay_is_kept(b, nanos, later);
    law_delay_is_kept(a, later, nanos);
}

/// A scheduled job becomes eligible at the next occurrence of its schedule, and its
/// delay is the time until then: the two agree to less than a millisecond either way.
/// Where the schedule has no further occurrence there is neither. A schedule never
/// leads past the calendar.
pub proof fn law_schedule_decides(schedule: Box<CronSchedule>, nanos: int)
    ensures
        match cron::schedule_next(schedule.pattern@, nanos) {
            Some(next) => {
                let delay = JobDelay::FromCron(schedule);
                &&& delay.next_millis(nanos) matches Some(at) && at * 1_000_000 <= next < at
                    * 1_000_000 + 1_000_000
                &&& delay.diff_millis(nanos) matches Some(ms) && (next >= nanos ==> ms
                    * 1_000_000 <= next - nanos < ms * 1_000_000 + 1_000_000)
            },
            None => JobDelay::FromCron(schedule).next_millis(nanos) is None && JobDelay::FromCron(
                schedule,
            ).diff_millis(nanos) is None,
        },
        JobDelay::FromCron(schedule).fits_calendar(nanos),
{
}

/// What is converted to a delay is the delay: milliseconds themselves, a schedule its
/// occurrences.
pub proof fn law_conversions_keep_the_delay(ms: i64, schedule: CronSchedule)
    ensures
        <JobDelay as vstd::std_specs::convert::FromSpec<i64>>::from_spec(ms)
            == JobDelay::TimeMilis(ms),
        <JobDelay as vstd::std_specs::convert::FromSpec<CronSchedule>>::from_spec(schedule)
            == JobDelay::FromCron(Box::new(schedule)),
{
}

} // verus!
