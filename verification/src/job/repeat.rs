//! Repeat policies.
use crate::job::backoff::{self, BackOff, BackOffJobOptions, StoredFn};
use crate::job::cron::{self, CronError, CronSchedule};
use crate::outside::cron as outside_cron;
use crate::time::{self, Dt, NANOS_PER_MILLI};
use vstd::prelude::*;

verus! {

/// Repeat policy of a job: when it is enqueued again after a run.
#[derive(Debug)]
pub enum Repeat {
    /// At the next occurrence of a cron schedule.
    WithCron(Box<CronSchedule>),
    /// After a delay that a backoff strategy gives.
    WithBackOff(BackOffJobOptions),
    /// After a fixed delay, at most so many times.
    Every {
        /// Delay between runs in milliseconds.
        delay_ms: i64,
        /// Maximum number of repetitions; `None` means unlimited.
        max_attempts: Option<u64>,
    },
    /// At once, until this many attempts were made.
    Immediately(u64),
}

impl Clone for Repeat {
    fn clone(&self) -> (res: Self)
        ensures
            res == *self,
    {
        match self {
            Repeat::WithCron(schedule) => {
                let schedule: &CronSchedule = schedule;
                Repeat::WithCron(Box::new(schedule.clone()))
            },
            Repeat::WithBackOff(opts) => Repeat::WithBackOff(opts.clone()),
            Repeat::Every { delay_ms, max_attempts } => Repeat::Every {
                delay_ms: *delay_ms,
                max_attempts: *max_attempts,
            },
            Repeat::Immediately(max) => Repeat::Immediately(*max),
        }
    }
}

/// The delay function that a backoff policy leads to.
pub open spec fn policy_fn<'a, F>(backoff: &'a BackOff<F>, opts: BackOffJobOptions) -> Option<
    StoredFn<'a, F>,
> {
    match opts {
        BackOffJobOptions::Number(num) => if num == 0 {
            None
        } else {
            backoff.looked_up(Some("fixed"@), Some(num), None)
        },
        BackOffJobOptions::Opts(opts) => backoff.looked_up(
            backoff::name_of(opts),
            opts.delay,
            None,
        ),
    }
}

/// The Unix time in milliseconds, `delay_ms` after the point `nanos`.
pub open spec fn millis_after(nanos: int, delay_ms: int) -> int {
    (nanos + delay_ms * NANOS_PER_MILLI) / (NANOS_PER_MILLI as int)
}

/// The point `delay_ms` after `nanos` is in the calendar.
pub open spec fn reaches(nanos: int, delay_ms: int) -> bool {
    time::in_calendar(nanos + delay_ms * NANOS_PER_MILLI)
}

impl Repeat {
    /// The backoff strategy, where the policy has one, has a value for this
    /// attempt count.
    pub open spec fn accepts<F: Fn(i64, i64) -> i64>(
        self,
        backoff: &BackOff<F>,
        attempts: u64,
    ) -> bool {
        self matches Repeat::WithBackOff(opts) ==> (policy_fn(backoff, opts) matches Some(f)
            ==> f.accepts(attempts as i64))
    }

    /// `next` is the Unix time in milliseconds of the next run after
    /// `attempts` attempts when it is asked for at `nanos`. Zero stands for
    /// "at once", `None` for "no more". Where the calendar does not reach the
    /// next run, there is none.
    pub open spec fn next_is<F: Fn(i64, i64) -> i64>(
        self,
        backoff: &BackOff<F>,
        attempts: u64,
        nanos: int,
        next: Option<i64>,
    ) -> bool {
        match self {
            Repeat::WithCron(schedule) => match cron::schedule_next(schedule.pattern@, nanos) {
                Some(at) => next matches Some(next) && next == at / (NANOS_PER_MILLI as int),
                None => next is None,
            },
            Repeat::WithBackOff(opts) => match policy_fn(backoff, opts) {
                Some(f) => exists|delay_ms: i64| #[trigger]
                    f.gives(attempts as i64, delay_ms) && if reaches(nanos, delay_ms as int) {
                        next matches Some(next) && next == millis_after(nanos, delay_ms as int)
                    } else {
                        next is None
                    },
                None => next is None,
            },
            Repeat::Every { delay_ms, max_attempts } => if (max_attempts matches Some(max)
                && attempts >= max) || !reaches(nanos, delay_ms as int) {
                next is None
            } else {
                next matches Some(next) && next == millis_after(nanos, delay_ms as int)
            },
            Repeat::Immediately(max_attempts) => if attempts >= max_attempts {
                next is None
            } else {
                next == Some(0i64)
            },
        }
    }

    /// A policy that repeats at the occurrences of a cron expression.
    pub fn from_cron_str(pattern: &str) -> (repeat: Result<Self, CronError>)
        ensures
            match repeat {
                Ok(repeat) => outside_cron::cron_check(pattern@) is Ok && (repeat matches
                    Repeat::WithCron(schedule) && schedule.pattern@ == pattern@),
                Err(error) => outside_cron::cron_check(pattern@) == Err::<(), Seq<char>>(
                    error.message@,
                ),
            },
    {
        match CronSchedule::parse(pattern) {
            Ok(schedule) => Ok(Repeat::WithCron(Box::new(schedule))),
            Err(error) => Err(error),
        }
    }

    /// A policy that repeats after a backoff delay.
    pub fn from_back_off(opts: BackOffJobOptions) -> (repeat: Self)
        ensures
            repeat == Repeat::WithBackOff(opts),
    {
        Repeat::WithBackOff(opts)
    }

    /// A policy that repeats every `every_ms` milliseconds, at most
    /// `max_attempts` times.
    pub fn repeat_every_for_times(every_ms: i64, max_attempts: Option<u64>) -> (repeat: Self)
        ensures
            repeat == (Repeat::Every { delay_ms: every_ms, max_attempts }),
    {
        Repeat::Every { delay_ms: every_ms, max_attempts }
    }

    /// The Unix time in milliseconds of the next run, asked for at `now`.
    pub fn next_occurrence_at<F: Fn(i64, i64) -> i64>(
        &self,
        backoff: &BackOff<F>,
        attempts: u64,
        now: &Dt,
    ) -> (next: Option<i64>)
        requires
            backoff.wf(),
            self.accepts(backoff, attempts),
        ensures
            self.next_is(backoff, attempts, now@, next),
    {
        match self {
            Repeat::WithCron(schedule) => match schedule.next_after(now) {
                Some(next) => Some(next.timestamp_millis()),
                None => None,
            },
            Repeat::WithBackOff(opts) => {
                let opts = match BackOff::<F>::normalize(Some(opts)) {
                    Some(opts) => opts,
                    None => return None,
                };
                let delay_fn = match backoff.lookup_strategy(opts, None) {
                    Some(delay_fn) => delay_fn,
                    None => return None,
                };
                let next_delay_ms: i64 = delay_fn.call(attempts as i64);
                match now.checked_add_millis(next_delay_ms) {
                    Some(next) => Some(next.timestamp_millis()),
                    None => None,
                }
            },
            Repeat::Every { delay_ms, max_attempts } => {
                if let Some(max) = max_attempts {
                    if attempts >= *max {
                        return None;
                    }
                }
                match now.checked_add_millis(*delay_ms) {
                    Some(next) => Some(next.timestamp_millis()),
                    None => None,
                }
            },
            Repeat::Immediately(max_attempts) => {
                if attempts >= *max_attempts {
                    return None;
                }
                Some(0)
            },
        }
    }

    /// The Unix time in milliseconds of the next run, or `None` when the
    /// policy is exhausted. Zero means "move to the wait list at once".
    pub fn next_occurrence<F: Fn(i64, i64) -> i64>(
        &self,
        backoff: &BackOff<F>,
        attempts: u64,
    ) -> (next: Option<i64>)
        requires
            backoff.wf(),
            self.accepts(backoff, attempts),
        ensures
            exists|now: Dt| #[trigger] self.next_is(backoff, attempts, now@, next),
    {
        let now = Dt::now();
        self.next_occurrence_at(backoff, attempts, &now)
    }
}

/// A job that repeats after a fixed delay without a limit runs again after any
/// number of attempts, that delay later, as long as the calendar reaches; one with a
/// limit does so exactly while fewer attempts were made.
pub proof fn law_fixed_delay_repeats<F: Fn(i64, i64) -> i64>(
    backoff: &BackOff<F>,
    delay_ms: i64,
    limit: u64,
    attempts: u64,
    nanos: int,
    free: Option<i64>,
    limited: Option<i64>,
)
    requires
        (Repeat::Every { delay_ms, max_attempts: None }).next_is(backoff, attempts, nanos, free),
        (Repeat::Every { delay_ms, max_attempts: Some(limit) }).next_is(
            backoff,
            attempts,
            nanos,
            limited,
        ),
        time::in_calendar(nanos + delay_ms * 1_000_000),
    ensures
        free matches Some(next) && next == nanos / 1_000_000 + delay_ms,
        attempts < limit ==> limited == free,
        attempts >= limit ==> limited is None,
{
    assert((nanos + delay_ms * 1_000_000) / 1_000_000 == nanos / 1_000_000 + delay_ms)
        by (nonlinear_arith);
}

/// A job that repeats at once does so exactly while fewer attempts were made than
/// its limit says.
pub proof fn law_immediate_repeats<F: Fn(i64, i64) -> i64>(
    backoff: &BackOff<F>,
    limit: u64,
    attempts: u64,
    nanos: int,
    next: Option<i64>,
)
    requires
        Repeat::Immediately(limit).next_is(backoff, attempts, nanos, next),
    ensures
        attempts < limit ==> next == Some(0i64),
        attempts >= limit ==> next is None,
{
}

/// A job that repeats on a schedule runs again at the schedule's next occurrence,
/// after any number of attempts, as long as there is one.
pub proof fn law_scheduled_repeats<F: Fn(i64, i64) -> i64>(
    backoff: &BackOff<F>,
    schedule: Box<CronSchedule>,
    attempts: u64,
    nanos: int,
    next: Option<i64>,
)
    requires
        Repeat::WithCron(schedule).next_is(backoff, attempts, nanos, next),
    ensures
        next is Some <==> cron::schedule_next(schedule.pattern@, nanos) is Some,
        next matches Some(at) ==> {
            let occurrence = cron::schedule_next(schedule.pattern@, nanos)->0;
            at * 1_000_000 <= occurrence < at * 1_000_000 + 1_000_000
        },
{
}

/// A job that repeats after a number of milliseconds runs again that much later,
/// after any number of attempts, where the strategy `"fixed"` is registered as such;
/// the number zero is no policy.
pub proof fn law_number_repeats<F: Fn(i64, i64) -> i64>(
    backoff: &BackOff<F>,
    number: i64,
    attempts: u64,
    nanos: int,
    next: Option<i64>,
)
    requires
        Repeat::WithBackOff(BackOffJobOptions::Number(number)).next_is(
            backoff,
            attempts,
            nanos,
            next,
        ),
        backoff@.dom().contains("fixed"@),
        backoff@["fixed"@] is Fixed,
        time::in_calendar(nanos + number * 1_000_000),
    ensures
        number != 0 ==> (next matches Some(at) && at == nanos / 1_000_000 + number),
        number == 0 ==> next is None,
{
    assert((nanos + number * 1_000_000) / 1_000_000 == nanos / 1_000_000 + number)
        by (nonlinear_arith);
}

/// A job that repeats after a backoff delay is never exhausted by its attempts: where
/// its policy names a registered strategy and a base delay, it runs again after what
/// the strategy gives, as long as the calendar reaches: the base delay itself for a
/// fixed one, and the base delay doubled once for each attempt for an exponential one.
/// A policy without a registered name, or without a base delay, repeats nothing.
pub proof fn law_backoff_repeats<F: Fn(i64, i64) -> i64>(
    backoff: &BackOff<F>,
    opts: backoff::BackOffOptions,
    attempts: u64,
    nanos: int,
    next: Option<i64>,
)
    requires
        Repeat::WithBackOff(BackOffJobOptions::Opts(opts)).next_is(backoff, attempts, nanos, next),
        attempts <= i64::MAX,
    ensures
        opts.type_ is None || opts.delay is None || !backoff@.dom().contains((opts.type_->0)@)
            ==> next is None,
        opts.type_ is Some && opts.delay is Some && backoff@.dom().contains((opts.type_->0)@) ==> {
            let base = opts.delay->0;
            let strategy = backoff@[(opts.type_->0)@];
            let waited = vstd::arithmetic::power2::pow2(attempts as nat) * base;
            &&& strategy is Fixed && time::in_calendar(nanos + base * 1_000_000) ==> (next matches Some(
                at,
            ) && at == nanos / 1_000_000 + base)
            &&& strategy is Exponential && time::in_calendar(nanos + waited * 1_000_000) ==> (
            next matches Some(at) && at == nanos / 1_000_000 + waited)
        },
{
    if opts.type_ is Some && opts.delay is Some && backoff@.dom().contains((opts.type_->0)@) {
        let base = opts.delay->0;
        let waited = vstd::arithmetic::power2::pow2(attempts as nat) * base;
        assert((nanos + base * 1_000_000) / 1_000_000 == nanos / 1_000_000 + base)
            by (nonlinear_arith);
        assert((nanos + waited * 1_000_000) / 1_000_000 == nanos / 1_000_000 + waited)
            by (nonlinear_arith);
    }
}

impl From<BackOffJobOptions> for Repeat {
    fn from(value: BackOffJobOptions) -> (repeat: Self) {
        Repeat::from_back_off(value)
    }
}

impl vstd::std_specs::convert::FromSpecImpl<BackOffJobOptions> for Repeat {
    open spec fn obeys_from_spec() -> bool {
        true
    }

    open spec fn from_spec(value: BackOffJobOptions) -> Self {
        Repeat::WithBackOff(value)
    }
}

impl From<(i64, Option<u64>)> for Repeat {
    fn from(value: (i64, Option<u64>)) -> (repeat: Self) {
        Repeat::Every { delay_ms: value.0, max_attempts: value.1 }
    }
}

impl vstd::std_specs::convert::FromSpecImpl<(i64, Option<u64>)> for Repeat {
    open spec fn obeys_from_spec() -> bool {
        true
    }

    open spec fn from_spec(value: (i64, Option<u64>)) -> Self {
        Repeat::Every { delay_ms: value.0, max_attempts: value.1 }
    }
}

impl<'a> TryFrom<&'a str> for Repeat {
    type Error = CronError;

    /// Parses a cron expression.
    fn try_from(value: &'a str) -> (repeat: Result<Self, CronError>)
        ensures
            match repeat {
                Ok(repeat) => outside_cron::cron_check(value@) is Ok && (repeat matches
                    Repeat::WithCron(schedule) && schedule.pattern@ == value@),
                Err(error) => outside_cron::cron_check(value@) == Err::<(), Seq<char>>(
                    error.message@,
                ),
            },
    {
        Repeat::from_cron_str(value)
    }
}

impl<'a> vstd::std_specs::convert::TryFromSpecImpl<&'a str> for Repeat {
    /// The contract stands on `try_from` itself: a value of this type that
    /// holds a given text cannot be written down.
    open spec fn obeys_try_from_spec() -> bool {
        false
    }

    open spec fn try_from_spec(value: &'a str) -> Result<Self, CronError> {
        arbitrary()
    }
}

/// Every policy but one that rests on a backoff strategy can be asked after any number of
/// attempts, and so can one that rests on the fixed strategy, or on none.
pub proof fn law_policies_can_be_asked<F: Fn(i64, i64) -> i64>(
    backoff: &BackOff<F>,
    schedule: Box<CronSchedule>,
    opts: BackOffJobOptions,
    delay_ms: i64,
    limit: Option<u64>,
    times: u64,
    attempts: u64,
)
    ensures
        Repeat::WithCron(schedule).accepts(backoff, attempts),
        (Repeat::Every { delay_ms, max_attempts: limit }).accepts(backoff, attempts),
        Repeat::Immediately(times).accepts(backoff, attempts),
        policy_fn(backoff, opts) is None ==> Repeat::WithBackOff(opts).accepts(backoff, attempts),
        policy_fn(backoff, opts) matches Some(f) ==> f is Fixed ==> Repeat::WithBackOff(
            opts,
        ).accepts(backoff, attempts),
        policy_fn(backoff, BackOffJobOptions::Number(0)) is None,
{
}

/// What is converted to a policy is the policy: a backoff its backoff, a delay and a limit
/// their repetition.
pub proof fn law_conversions_keep_the_policy(
    opts: BackOffJobOptions,
    delay_ms: i64,
    limit: Option<u64>,
)
    ensures
        <Repeat as vstd::std_specs::convert::FromSpec<BackOffJobOptions>>::from_spec(opts)
            == Repeat::WithBackOff(opts),
        <Repeat as vstd::std_specs::convert::FromSpec<(i64, Option<u64>)>>::from_spec(
            (delay_ms, limit),
        ) == (Repeat::Every { delay_ms, max_attempts: limit }),
{
}

} // verus!
