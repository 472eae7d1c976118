//! What a worker decides about one job: what is recorded of a run, and what
//! follows it.
use crate::error::{CaughtError, CaughtPanicInfo, JobError};
use crate::events::parameters;
use crate::job::{
    FailedDetails, Job, JobMetrics, JobOptions, JobState, JobToken, RemoveOnCompletionOrFailure,
    Trace,
};
use crate::queue::{ProcessedResult, QueueMetrics, RetryOptions};
use crate::time::{self, Dt, NANOS_PER_MICRO, NANOS_PER_MILLI};
use crate::timers::TimerType;
use crate::utils::sequences;
use vstd::prelude::*;

verus! {

/// What is known of a job when its processor is started.
#[derive(Debug, Clone, Copy)]
pub struct RunRecord {
    /// The job.
    pub job_id: u64,
    /// When it was created.
    pub added_at: Dt,
    /// When a worker began to process it.
    pub processed_on: Option<Dt>,
    /// The number of this attempt.
    pub attempts_made: u64,
    /// Statistics so far.
    pub metrics: JobMetrics,
}

/// The time from `earlier` to `later` in nanoseconds; none where it would be
/// negative.
pub open spec fn nanos_between(earlier: int, later: int) -> int {
    if later < earlier {
        0
    } else {
        later - earlier
    }
}

/// `record` is what is known of `job` when its processor is started.
pub open spec fn begun<D, R, P>(job: Job<D, R, P>, record: RunRecord) -> bool {
    &&& record.job_id == parameters::number_or_zero(job.id)
    &&& record.added_at == job.ts
    &&& record.processed_on == job.processed_on
    &&& record.attempts_made == job.attempts_made + 1
    &&& record.metrics.attempt == job.attempts_made + 1
    &&& if job.was_processed() && job.opts.delay.diff_millis(job.ts@) is Some {
        job.metrics_are((JobMetrics { attempt: job.attempts_made, ..record.metrics }))
    } else {
        record.metrics == (JobMetrics {
            attempt: record.attempts_made,
            ..parameters::no_metrics()
        })
    }
}

/// What is known of a job when its processor is started.
pub fn begin_run<D, R, P>(job: &Job<D, R, P>) -> (record: RunRecord)
    requires
        job.attempts_made < u64::MAX,
    ensures
        begun(*job, record),
{
    let attempts_made: u64 = job.attempts_made + 1;
    let mut metrics = match job.checked_metrics() {
        Some(metrics) => metrics,
        None => JobMetrics::default(),
    };
    metrics.attempt = attempts_made;
    RunRecord {
        job_id: match job.id {
            Some(id) => id,
            None => 0,
        },
        added_at: job.ts,
        processed_on: job.processed_on,
        attempts_made,
        metrics,
    }
}

/// `metrics` are the statistics of a run that ended at `now`.
pub open spec fn run_metrics(record: RunRecord, now: int, metrics: JobMetrics) -> bool {
    match record.processed_on {
        Some(began) => {
            &&& metrics.id == record.job_id
            &&& metrics.attempt == record.metrics.attempt
            &&& metrics.delay == record.metrics.delay
            &&& metrics.delayed_for.wf()
            &&& metrics.ran_for.wf()
            &&& metrics.delayed_for@ == nanos_between(record.added_at@, began@)
            &&& metrics.ran_for@ == nanos_between(began@, now)
        },
        None => metrics == record.metrics,
    }
}

/// What is recorded of a run that returned `result` at `now`: the Unix time in
/// microseconds, and the outcome with its statistics.
pub fn completed_run<R>(record: &RunRecord, result: R, now: &Dt) -> (finish: (
    i64,
    ProcessedResult<R>,
))
    ensures
        finish.0 == now@ / (NANOS_PER_MICRO as int),
        finish.1 matches ProcessedResult::Success(value, metrics) && value == result && run_metrics(
            *record,
            now@,
            metrics,
        ),
{
    let ts: i64 = now.timestamp_micros();
    let mut metrics = record.metrics;
    if let Some(processed_at) = record.processed_on {
        metrics.id = record.job_id;
        metrics.delayed_for = processed_at.span_since(&record.added_at);
        metrics.ran_for = now.span_since(&processed_at);
    }
    (ts, ProcessedResult::Success(result, metrics))
}

/// The reason of a failure in words.
pub open spec fn reason_of(error: CaughtError) -> Seq<char> {
    match error {
        CaughtError::Panic(info) => info.payload@,
        CaughtError::Error(message, _) => message@,
        CaughtError::JoinError(message) => message@,
    }
}

/// The frames of a failure, where there are any.
pub open spec fn frames_of(error: CaughtError) -> Option<Vec<String>> {
    match error {
        CaughtError::Panic(info) => info.backtrace,
        CaughtError::Error(_, backtrace) => backtrace,
        CaughtError::JoinError(_) => None,
    }
}

/// What is recorded of a run that failed: the details, and a trace where there
/// are frames.
pub fn failed_run(record: &RunRecord, error: CaughtError) -> (finish: (
    FailedDetails,
    Option<Trace>,
))
    ensures
        finish.0.run == record.attempts_made,
        finish.0.reason@ == reason_of(error),
        match (frames_of(error), finish.1) {
            (Some(frames), Some(trace)) => trace.run == record.attempts_made && trace.reason@
                == reason_of(error) && trace.frames == frames,
            (None, None) => true,
            _ => false,
        },
{
    let (failed_reason, backtrace) = match error {
        CaughtError::Panic(CaughtPanicInfo { backtrace, payload }) => (payload, backtrace),
        CaughtError::Error(error, backtrace) => (error, backtrace),
        CaughtError::JoinError(error) => (error, None),
    };
    let trace = match backtrace {
        Some(frames) => Some(
            Trace { run: record.attempts_made, reason: failed_reason.clone(), frames },
        ),
        None => None,
    };
    (FailedDetails { run: record.attempts_made, reason: failed_reason }, trace)
}

/// What follows a run.
#[derive(Debug)]
pub struct FollowUp<'a> {
    /// Try or run the job again, with the attempt count that the delay is
    /// taken from.
    pub retry: Option<(RetryOptions<'a>, u64)>,
    /// Clean up after the job, with the retention policy.
    pub clean_up: Option<Option<RemoveOnCompletionOrFailure>>,
}

/// `follow_up` is what follows a run that succeeded.
pub open spec fn follows_success<'a>(
    attempts_made: u64,
    repeat: Option<&'a crate::job::Repeat>,
    opts: JobOptions,
    follow_up: FollowUp<'a>,
) -> bool {
    if attempts_made < opts.attempts {
        &&& follow_up.clean_up is None
        &&& follow_up.retry == match repeat {
            Some(repeat) => Some((RetryOptions::WithRepeat(repeat), (attempts_made - 1) as u64)),
            None => None,
        }
    } else {
        &&& follow_up.clean_up == Some(opts.remove_on_complete)
        &&& follow_up.retry is None
    }
}

/// `follow_up` is what follows a run that failed.
pub open spec fn follows_failure<'a>(
    attempts_made: u64,
    opts: JobOptions,
    follow_up: FollowUp<'a>,
) -> bool {
    &&& if attempts_made < opts.attempts {
        match opts.backoff {
            Some(backoff) => follow_up.retry matches Some((RetryOptions::Failed(used), attempts))
                && *used == backoff && attempts == attempts_made - 1,
            None => follow_up.retry is None,
        }
    } else {
        follow_up.retry is None
    }
    &&& follow_up.clean_up == if attempts_made == opts.attempts {
        Some(opts.remove_on_fail)
    } else {
        None
    }
}

/// What follows a run that succeeded. `attempts_made` and `repeat` are those of
/// the record after the run, `opts` the options the job was picked up with: a
/// job with attempts left runs again if it repeats, one without is cleaned up
/// after.
pub fn after_success<'a>(
    attempts_made: u64,
    repeat: Option<&'a crate::job::Repeat>,
    opts: &JobOptions,
) -> (follow_up: FollowUp<'a>)
    requires
        attempts_made > 0 || opts.attempts == 0 || repeat is None,
    ensures
        follows_success(attempts_made, repeat, *opts, follow_up),
        !(follow_up.retry is Some && follow_up.clean_up is Some),
        follow_up.retry is Some <==> attempts_made < opts.attempts && repeat is Some,
        follow_up.clean_up is Some <==> attempts_made >= opts.attempts,
{
    if attempts_made < opts.attempts {
        let retry = match repeat {
            Some(repeat) => Some((RetryOptions::from(repeat), attempts_made - 1)),
            None => None,
        };
        FollowUp { retry, clean_up: None }
    } else {
        FollowUp { retry: None, clean_up: Some(opts.remove_on_complete) }
    }
}

/// What follows a run that failed: a job with attempts left is tried again if
/// it has a backoff; one whose attempts are used up is cleaned up after.
pub fn after_failure<'a>(attempts_made: u64, opts: &'a JobOptions) -> (follow_up: FollowUp<'a>)
    requires
        attempts_made > 0 || opts.attempts == 0 || opts.backoff is None,
    ensures
        follows_failure(attempts_made, *opts, follow_up),
        !(follow_up.retry is Some && follow_up.clean_up is Some),
        follow_up.retry is Some <==> attempts_made < opts.attempts && opts.backoff is Some,
        follow_up.clean_up is Some <==> attempts_made == opts.attempts,
{
    let retry = if attempts_made < opts.attempts {
        match &opts.backoff {
            Some(backoff) => Some((RetryOptions::from(backoff), attempts_made - 1)),
            None => None,
        }
    } else {
        None
    };
    let clean_up = if attempts_made == opts.attempts {
        Some(opts.remove_on_fail)
    } else {
        None
    };
    FollowUp { retry, clean_up }
}

/// What the store is asked to do when a run has ended: move the job to its
/// terminal state.
#[derive(Debug)]
pub struct MoveRequest<R> {
    /// The job.
    pub job_id: u64,
    /// Unix time in microseconds.
    pub ts: i64,
    /// The state the job moves to.
    pub state: JobState,
    /// The outcome of the run.
    pub outcome: ProcessedResult<R>,
    /// A trace of the failure.
    pub trace: Option<Trace>,
}

/// The run of one job, from its start to its end.
#[derive(Debug, Clone, Copy)]
pub struct JobRun {
    /// What was known when the run began.
    pub record: RunRecord,
    /// The terminal state, once the run has ended.
    pub ended: Option<JobState>,
}

/// What is left to do when the job has been moved.
#[derive(Debug)]
pub struct Settlement<'a> {
    /// What follows the run; nothing where the job was not tracked.
    pub follow_up: Option<FollowUp<'a>>,
    /// The job and its terminal state, where one job less is being processed:
    /// that is where the job was tracked with its task.
    pub released: Option<(u64, JobState)>,
}

impl JobRun {
    /// The run of a job begins.
    pub fn start<D, R, P>(job: &Job<D, R, P>) -> (run: Self)
        requires
            job.attempts_made < u64::MAX,
        ensures
            begun(*job, run.record),
            run.ended is None,
    {
        JobRun { record: begin_run(job), ended: None }
    }

    /// The processor has returned at `now`: a value completes the job, anything
    /// else fails it.
    pub fn returned<R>(&mut self, result: Result<R, CaughtError>, now: &Dt) -> (request:
        MoveRequest<R>)
        ensures
            request.job_id == old(self).record.job_id,
            request.ts == now@ / (NANOS_PER_MICRO as int),
            final(self).record == old(self).record,
            final(self).ended == Some(request.state),
            match result {
                Ok(value) => request.state == JobState::Completed && request.trace is None && (
                request.outcome matches ProcessedResult::Success(returned, metrics) && returned
                    == value && run_metrics(old(self).record, now@, metrics)),
                Err(error) => request.state == JobState::Failed && (request.outcome matches
                    ProcessedResult::Failed(details) && details.run == old(
                    self,
                ).record.attempts_made && details.reason@ == reason_of(error)) && match (
                    frames_of(error),
                    request.trace,
                ) {
                    (Some(frames), Some(trace)) => trace.run == old(self).record.attempts_made
                        && trace.reason@ == reason_of(error) && trace.frames == frames,
                    (None, None) => true,
                    _ => false,
                },
            },
    {
        let job_id: u64 = self.record.job_id;
        match result {
            Ok(value) => {
                self.ended = Some(JobState::Completed);
                let (ts, outcome) = completed_run(&self.record, value, now);
                MoveRequest { job_id, ts, state: JobState::Completed, outcome, trace: None }
            },
            Err(error) => {
                self.ended = Some(JobState::Failed);
                let (details, trace) = failed_run(&self.record, error);
                MoveRequest {
                    job_id,
                    ts: now.timestamp_micros(),
                    state: JobState::Failed,
                    outcome: ProcessedResult::Failed(details),
                    trace,
                }
            },
        }
    }

    /// The job has been moved to its terminal state. `attempts_made` and
    /// `repeat` are those of its record now; `known` are the options it was
    /// picked up with and whether its task is known, where the job was tracked
    /// as being processed.
    pub fn moved<'a>(
        &self,
        attempts_made: u64,
        repeat: Option<&'a crate::job::Repeat>,
        known: Option<(&'a JobOptions, bool)>,
    ) -> (settlement: Settlement<'a>)
        requires
            self.ended is Some,
            known matches Some((opts, _)) ==> attempts_made > 0 || opts.attempts == 0 || if self.ended
                == Some(JobState::Completed) {
                repeat is None
            } else {
                opts.backoff is None
            },
        ensures
            known is None ==> settlement.follow_up is None && settlement.released is None,
            known matches Some((opts, has_task)) ==> {
                &&& settlement.released == if has_task {
                    Some((self.record.job_id, self.ended->0))
                } else {
                    None
                }
                &&& settlement.follow_up matches Some(follow_up)
                &&& if self.ended == Some(JobState::Completed) {
                    follows_success(attempts_made, repeat, *opts, follow_up)
                } else {
                    follows_failure(attempts_made, *opts, follow_up)
                }
            },
    {
        let state = match self.ended {
            Some(state) => state,
            None => JobState::Failed,
        };
        match known {
            Some((opts, has_task)) => {
                let follow_up = if state == JobState::Completed {
                    after_success(attempts_made, repeat, opts)
                } else {
                    after_failure(attempts_made, opts)
                };
                let released = if has_task {
                    Some((self.record.job_id, state))
                } else {
                    None
                };
                Settlement { follow_up: Some(follow_up), released }
            },
            None => Settlement { follow_up: None, released: None },
        }
    }
}

/// How a worker comes by its next job.
#[derive(Debug, Clone, Copy, PartialEq, Eq, Structural)]
pub enum NextJob {
    /// Not at all: the worker is closed.
    Nothing,
    /// This job, which was waiting, is prepared for processing at this Unix
    /// time in microseconds.
    Prepare(u64, u64),
    /// The next job of the queue is moved to the active ones.
    MoveToActive,
}

/// How a worker comes by its next job at a point in time.
pub open spec fn next_job(closed: bool, passed_id: Option<u64>, nanos: int) -> NextJob {
    if closed {
        NextJob::Nothing
    } else {
        match passed_id {
            Some(id) => NextJob::Prepare(id, (nanos / (NANOS_PER_MICRO as int)) as i64 as u64),
            None => NextJob::MoveToActive,
        }
    }
}

/// How a worker comes by its next job at `now`.
pub fn get_next_job(closed: bool, passed_id: Option<u64>, now: &Dt) -> (next: NextJob)
    ensures
        next == next_job(closed, passed_id, now@),
{
    if closed {
        return NextJob::Nothing;
    }
    match passed_id {
        Some(id) => NextJob::Prepare(id, now.timestamp_micros() as u64),
        None => NextJob::MoveToActive,
    }
}

/// The first and the last score of the delayed jobs that become due from a point in
/// time on; nothing where no job is delayed.
pub open spec fn due_window(metrics: QueueMetrics, nanos: int, interval_ms: i64) -> Option<
    (int, int),
> {
    if metrics.delayed > 0 {
        Some(
            (
                nanos / (NANOS_PER_MILLI as int),
                (nanos + interval_ms * NANOS_PER_MILLI) / (NANOS_PER_MILLI as int),
            ),
        )
    } else {
        None
    }
}

/// The scores of the delayed jobs that become due from `date_time` on, for
/// `interval_ms` milliseconds: first and last one. Nothing where no job is
/// delayed.
pub fn promote_jobs(metrics: &QueueMetrics, date_time: &Dt, interval_ms: i64) -> (window: Option<
    (i64, i64),
>)
    requires
        metrics.delayed > 0 ==> time::in_calendar(date_time@ + interval_ms * NANOS_PER_MILLI),
    ensures
        match window {
            Some((start, stop)) => due_window(*metrics, date_time@, interval_ms) == Some(
                (start as int, stop as int),
            ),
            None => due_window(*metrics, date_time@, interval_ms) is None,
        },
{
    if !metrics.has_delayed() {
        return None;
    }
    Some((date_time.timestamp_millis(), date_time.add_millis(interval_ms).timestamp_millis()))
}

/// The timers that let due jobs of a queue wait, one for each.
pub fn promotion_timers(jobs: &Vec<u64>, queue_id: u128) -> (timers: Vec<TimerType>)
    ensures
        timers@ == Seq::new(
            jobs@.len(),
            |i: int| TimerType::PromotedDelayed(jobs@[i], queue_id),
        ),
{
    let mut timers: Vec<TimerType> = Vec::new();
    let mut i: usize = 0;
    while i < jobs.len()
        invariant
            i <= jobs.len(),
            timers@.len() == i,
            forall|j: int|
                0 <= j < i ==> #[trigger] timers@[j] == TimerType::PromotedDelayed(
                    jobs@[j],
                    queue_id,
                ),
        decreases jobs.len() - i,
    {
        timers.push(TimerType::PromotedDelayed(jobs[i], queue_id));
        i += 1;
    }
    assert(timers@ =~= Seq::new(
        jobs@.len(),
        |i: int| TimerType::PromotedDelayed(jobs@[i], queue_id),
    ));
    timers
}

/// The window of due jobs is as long as the interval, in milliseconds.
pub proof fn law_window_has_the_length_of_the_interval(nanos: int, interval_ms: int)
    ensures
        (nanos + interval_ms * NANOS_PER_MILLI) / (NANOS_PER_MILLI as int) == nanos / (
        NANOS_PER_MILLI as int) + interval_ms,
{
    assert((nanos + interval_ms * 1_000_000) / 1_000_000 == nanos / 1_000_000 + interval_ms)
        by (nonlinear_arith);
}

/// A closed worker takes no job up; another one takes up the job that was passed to it,
/// at that time, and the next one of the queue where none was.
pub proof fn law_worker_takes_what_it_is_passed(id: u64, nanos: int)
    ensures
        next_job(true, Some(id), nanos) is Nothing,
        next_job(true, None, nanos) is Nothing,
        next_job(false, None, nanos) is MoveToActive,
        0 <= nanos && time::in_calendar(nanos) ==> (next_job(false, Some(id), nanos) matches NextJob::Prepare(
            job,
            micros,
        ) && job == id && micros * NANOS_PER_MICRO <= nanos < (micros + 1) * NANOS_PER_MICRO),
{
}

/// Delayed jobs are looked for exactly where there are some, from now on and for as
/// many milliseconds as asked: a job that is due in this time, by the clock, is in the
/// window.
pub proof fn law_due_jobs_are_in_the_window(
    metrics: QueueMetrics,
    nanos: int,
    interval_ms: i64,
    score: int,
)
    ensures
        metrics.delayed == 0 ==> due_window(metrics, nanos, interval_ms) is None,
        metrics.delayed > 0 ==> match due_window(metrics, nanos, interval_ms) {
            Some((start, stop)) => {
                &&& start * NANOS_PER_MILLI <= nanos < (start + 1) * NANOS_PER_MILLI
                &&& stop == start + interval_ms
                &&& nanos <= score * NANOS_PER_MILLI <= nanos + interval_ms * NANOS_PER_MILLI
                    ==> start <= score <= stop
            },
            None => false,
        },
{
    law_window_has_the_length_of_the_interval(nanos, interval_ms as int);
}

/// Whether delayed jobs are looked for.
pub open spec fn looks_for_delayed(metrics: QueueMetrics) -> bool {
    metrics.delayed > 0 && !metrics.idle()
}

/// For how many milliseconds the timers of the queue rest, if at all.
pub open spec fn rest_of(metrics: QueueMetrics) -> Option<u64> {
    if metrics.idle() {
        Some(THROTTLE_MS)
    } else {
        None
    }
}

/// Delayed jobs are looked for whenever there is one, whatever else the queue holds,
/// and never where there is none. The timers of a queue rest only where it had a job
/// and nothing is left to do: not where a job waits, is prioritized, delayed, stalled
/// or active, and not while one is being processed.
pub proof fn law_timers_rest_only_when_idle(metrics: QueueMetrics)
    ensures
        looks_for_delayed(metrics) <==> metrics.delayed > 0,
        looks_for_delayed(metrics) ==> rest_of(metrics) is None,
        metrics.waiting > 0 || metrics.prioritized > 0 || metrics.delayed > 0 || metrics.stalled
            > 0 || metrics.active > 0 || metrics.processing > 0 || metrics.last_id == 0
            ==> rest_of(metrics) is None,
        metrics.waiting == 0 && metrics.prioritized == 0 && metrics.delayed == 0
            && metrics.stalled == 0 && metrics.active == 0 && metrics.processing == 0
            && metrics.last_id > 0 ==> rest_of(metrics) == Some(500u64),
{
}

/// Whether delayed jobs are looked for: where there are some and the queue is
/// not idle.
pub fn promotes_jobs(metrics: &QueueMetrics) -> (promotes: bool)
    ensures
        promotes == looks_for_delayed(*metrics),
{
    metrics.has_delayed() && !metrics.is_idle()
}

/// For how many milliseconds the timers of an idle queue rest.
pub const THROTTLE_MS: u64 = 500;

/// For how many milliseconds the timers of the queue rest, if at all.
pub fn throttled(metrics: &QueueMetrics) -> (rest_ms: Option<u64>)
    ensures
        rest_ms == rest_of(*metrics),
{
    if metrics.is_idle() {
        Some(THROTTLE_MS)
    } else {
        None
    }
}

/// How a job that missed its time is failed at `date_time`: with the token it is
/// locked with, or a fresh one, and with the attempts made so far as the run.
pub fn fail_missed<R>(
    job_id: u64,
    attempts: Option<u64>,
    token: Option<JobToken>,
    date_time: &Dt,
) -> (failing: (JobToken, MoveRequest<R>))
    ensures
        token matches Some(token) ==> failing.0 == token,
        token is None ==> failing.0.2 == 0,
        failing.1.job_id == job_id,
        failing.1.ts == date_time@ / (NANOS_PER_MICRO as int),
        failing.1.state == JobState::Failed,
        failing.1.trace is None,
        failing.1.outcome matches ProcessedResult::Failed(details) && details.run
            == parameters::number_or_zero(attempts) && details.reason@
            == JobError::MissedDelayDeadline.words(),
{
    let used = match token {
        Some(token) => token,
        None => JobToken::default(),
    };
    let details = FailedDetails {
        run: match attempts {
            Some(attempts) => attempts,
            None => 0,
        },
        reason: String::from_str(JobError::MissedDelayDeadline.message()),
    };
    let request = MoveRequest {
        job_id,
        ts: date_time.timestamp_micros(),
        state: JobState::Failed,
        outcome: ProcessedResult::Failed(details),
        trace: None,
    };
    (used, request)
}

/// What follows a run that failed, by the numbers: a job with attempts left and a
/// backoff is tried again with that backoff, counted from the attempts before this
/// one, and nothing is cleaned up; one whose attempts are used up is not tried again,
/// and is cleaned up after when this was its last attempt; one without a backoff is
/// never tried again.
pub proof fn law_failed_job_is_retried<'a>(
    attempts_made: u64,
    opts: JobOptions,
    follow_up: FollowUp<'a>,
)
    requires
        attempts_made > 0,
        follows_failure(attempts_made, opts, follow_up),
    ensures
        attempts_made < opts.attempts && opts.backoff is Some ==> {
            &&& follow_up.retry matches Some((RetryOptions::Failed(used), count)) && Some(*used)
                == opts.backoff && count == attempts_made - 1
            &&& follow_up.clean_up is None
        },
        attempts_made >= opts.attempts ==> follow_up.retry is None,
        attempts_made == opts.attempts ==> follow_up.clean_up == Some(opts.remove_on_fail),
        attempts_made != opts.attempts ==> follow_up.clean_up is None,
        opts.backoff is None ==> follow_up.retry is None,
{
}

/// What follows a run that succeeded, by the numbers: a job with attempts left that
/// repeats runs again with that policy, counted from the attempts before this one, and
/// nothing is cleaned up; one whose attempts are used up does not run again, and is
/// cleaned up after; one that does not repeat never runs again.
pub proof fn law_completed_job_is_repeated<'a>(
    attempts_made: u64,
    repeat: Option<&'a crate::job::Repeat>,
    opts: JobOptions,
    follow_up: FollowUp<'a>,
)
    requires
        attempts_made > 0,
        follows_success(attempts_made, repeat, opts, follow_up),
    ensures
        attempts_made < opts.attempts ==> follow_up.clean_up is None && match repeat {
            Some(policy) => follow_up.retry matches Some((RetryOptions::WithRepeat(used), count))
                && *used == *policy && count == attempts_made - 1,
            None => follow_up.retry is None,
        },
        attempts_made >= opts.attempts ==> follow_up.retry is None && follow_up.clean_up == Some(
            opts.remove_on_complete,
        ),
{
}

/// Holds of what is followed by another try.
pub open spec fn tries_again<'a>() -> spec_fn(FollowUp<'a>) -> bool {
    |follow_up: FollowUp<'a>| follow_up.retry is Some
}

/// Holds of what is followed by a clean-up.
pub open spec fn cleans_up<'a>() -> spec_fn(FollowUp<'a>) -> bool {
    |follow_up: FollowUp<'a>| follow_up.clean_up is Some
}

/// A job with a backoff that fails every time is tried again once less than it has
/// attempts, and is cleaned up after exactly once, after its last attempt.
pub proof fn law_failing_job_uses_up_its_attempts<'a>(
    opts: JobOptions,
    follow_ups: Seq<FollowUp<'a>>,
)
    requires
        opts.attempts > 0,
        opts.backoff is Some,
        follow_ups.len() == opts.attempts,
        forall|i: int|
            0 <= i < follow_ups.len() ==> follows_failure(
                (i + 1) as u64,
                opts,
                #[trigger] follow_ups[i],
            ),
    ensures
        follow_ups.filter(tries_again()).len() == opts.attempts - 1,
        follow_ups.filter(cleans_up()) == seq![follow_ups.last()],
        follow_ups.last().retry is None,
        follow_ups.last().clean_up == Some(opts.remove_on_fail),
{
    let before = follow_ups.drop_last();
    let last = follow_ups.last();
    assert(follow_ups =~= before.push(last));
    assert(follow_ups[follow_ups.len() - 1] == last);
    assert forall|i: int| 0 <= i < before.len() implies tries_again()(#[trigger] before[i])
        && !cleans_up()(before[i]) by {
        assert(before[i] == follow_ups[i]);
    }
    reveal(Seq::filter);
    sequences::lemma_filter_all(before, tries_again());
    sequences::lemma_filter_none(before, cleans_up());
    assert(follow_ups.filter(cleans_up()) =~= seq![last]);
}

/// A job that repeats and succeeds every time runs again once less than it has
/// attempts, and is cleaned up after exactly once, after its last attempt.
pub proof fn law_repeating_job_uses_up_its_attempts<'a>(
    repeat: &'a crate::job::Repeat,
    opts: JobOptions,
    follow_ups: Seq<FollowUp<'a>>,
)
    requires
        opts.attempts > 0,
        follow_ups.len() == opts.attempts,
        forall|i: int|
            0 <= i < follow_ups.len() ==> follows_success(
                (i + 1) as u64,
                Some(repeat),
                opts,
                #[trigger] follow_ups[i],
            ),
    ensures
        follow_ups.filter(tries_again()).len() == opts.attempts - 1,
        follow_ups.filter(cleans_up()) == seq![follow_ups.last()],
        follow_ups.last().retry is None,
        follow_ups.last().clean_up == Some(opts.remove_on_complete),
{
    let before = follow_ups.drop_last();
    let last = follow_ups.last();
    assert(follow_ups =~= before.push(last));
    assert(follow_ups[follow_ups.len() - 1] == last);
    assert forall|i: int| 0 <= i < before.len() implies tries_again()(#[trigger] before[i])
        && !cleans_up()(before[i]) by {
        assert(before[i] == follow_ups[i]);
    }
    reveal(Seq::filter);
    sequences::lemma_filter_all(before, tries_again());
    sequences::lemma_filter_none(before, cleans_up());
    assert(follow_ups.filter(cleans_up()) =~= seq![last]);
}

/// A run counts as one attempt more than its job had made, under the job's id, and
/// the time that the job waited and the time that it ran make up the time from its
/// creation to the end of the run. A clock that went backwards counts as no time.
pub proof fn law_run_is_accounted_for<D, R, P>(
    job: Job<D, R, P>,
    record: RunRecord,
    now: Dt,
    metrics: JobMetrics,
)
    requires
        begun(job, record),
        run_metrics(record, now@, metrics),
    ensures
        record.attempts_made == job.attempts_made + 1,
        metrics.attempt == job.attempts_made + 1,
        job.id matches Some(id) ==> record.job_id == id,
        job.id is None ==> record.job_id == 0,
        job.processed_on is Some && job.id is Some ==> Some(metrics.id) == job.id,
        job.processed_on matches Some(began) ==> {
            &&& job.ts@ <= began@ ==> metrics.delayed_for@ == began@ - job.ts@
            &&& began@ < job.ts@ ==> metrics.delayed_for@ == 0
            &&& began@ <= now@ ==> metrics.ran_for@ == now@ - began@
            &&& now@ < began@ ==> metrics.ran_for@ == 0
            &&& job.ts@ <= began@ <= now@ ==> metrics.delayed_for@ + metrics.ran_for@ == now@
                - job.ts@
        },
        match job.opts.delay.diff_millis(job.ts@) {
            Some(delay) => job.processed_on is Some && 0 <= delay <= i64::MAX ==> metrics.delay
                == delay,
            None => true,
        },
{
}

/// The reason of a failure is what the processor said: a panic's payload, an error's
/// message; only those two have frames.
pub proof fn law_failure_keeps_its_words(error: CaughtError)
    ensures
        match error {
            CaughtError::Panic(info) => reason_of(error) == info.payload@ && frames_of(error)
                == info.backtrace,
            CaughtError::Error(message, backtrace) => reason_of(error) == message@ && frames_of(
                error,
            ) == backtrace,
            CaughtError::JoinError(message) => reason_of(error) == message@ && frames_of(
                error,
            ) is None,
        },
{
}

} // verus!
