//! Cron schedules.
use crate::outside::cron::{self, check_pattern, next_occurrence};
use crate::time::{Dt, NANOS_PER_SEC};
use vstd::prelude::*;

verus! {

/// Why a cron expression was refused.
#[derive(Debug)]
pub struct CronError {
    /// The reason, in words.
    pub message: String,
}

/// A cron schedule: the expression that it was made from.
#[derive(Debug)]
pub struct CronSchedule {
    /// The cron expression.
    pub pattern: String,
}

/// The first occurrence of `pattern` after the point `nanos`.
pub open spec fn schedule_next(pattern: Seq<char>, nanos: int) -> Option<int> {
    let secs = nanos / (NANOS_PER_SEC as int);
    match cron::cron_next(pattern, secs as i64, (nanos - secs * NANOS_PER_SEC) as u32) {
        Some(next) => Some(next.0 * NANOS_PER_SEC + next.1),
        None => None,
    }
}

impl CronSchedule {
    /// Parses a cron expression.
    pub fn parse(pattern: &str) -> (schedule: Result<CronSchedule, CronError>)
        ensures
            match schedule {
                Ok(schedule) => cron::cron_check(pattern@) is Ok && schedule.pattern@ == pattern@,
                Err(error) => cron::cron_check(pattern@) == Err::<(), Seq<char>>(
                    error.message@,
                ),
            },
    {
        match check_pattern(pattern) {
            Ok(()) => Ok(CronSchedule { pattern: String::from_str(pattern) }),
            Err(message) => Err(CronError { message }),
        }
    }

    /// The first occurrence after `dt`, if there is one.
    pub fn next_after(&self, dt: &Dt) -> (next: Option<Dt>)
        ensures
            match next {
                Some(next) => schedule_next(self.pattern@, dt@) == Some(next@),
                None => schedule_next(self.pattern@, dt@) is None,
            },
    {
        let (secs, nanos) = dt.seconds_and_nanos();
        proof {
            let whole = dt@ / (NANOS_PER_SEC as int);
            assert(whole == secs) by (nonlinear_arith)
                requires
                    dt@ == secs * 1_000_000_000int + nanos,
                    nanos < 1_000_000_000int,
                    whole == dt@ / 1_000_000_000int,
            ;
        }
        match next_occurrence(self.pattern.as_str(), secs, nanos) {
            Some((secs, nanos)) => {
                Dt::from_timestamp_nanos((secs as i128) * NANOS_PER_SEC + (nanos as i128))
            },
            None => None,
        }
    }
}

impl Clone for CronSchedule {
    fn clone(&self) -> (res: Self)
        ensures
            res == *self,
    {
        CronSchedule { pattern: self.pattern.clone() }
    }
}

} // verus!
