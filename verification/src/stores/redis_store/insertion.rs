//! Adding jobs: the commands that store them and tell of them.
use super::RedisStore;
use super::command::{self, add_pairs, command_with_three, command_with_two};
use super::records::JobHashField;
use super::writing::{self, job_pairs};
use crate::error::{KioError, KioResult, QueueError};
use crate::events::{QueueStreamEvent, StreamEventId};
use crate::job::{CronError, Job, JobDelay, JobOptions, JobState};
use crate::outside::lowercase::{self, to_compact_lowercase};
use crate::outside::pipeline::{self, command_of, pipeline_add, pipeline_atomic};
use crate::queue::{CollectionSuffix, QueueEventMode, QueueOpts};
use crate::stores::inmemory_store::insertion::{self, id_for};
use crate::time::Dt;
use crate::utils::scheduling;
use crate::utils::scheduling::{
    calculate_next_priority_score, priority_score_fits, update_job_opts,
};
use crate::utils::text::{self, decimal, signed};
use crate::worker::MIN_DELAY_MS_LIMIT;
use vstd::prelude::*;

verus! {

/// `fields` are the fields of `job` as they are written, those that hold no plain
/// value by `write_other`.
pub open spec fn writes_job<D, R, P, F: Fn(JobHashField, &Job<D, R, P>) -> String>(
    write_other: F,
    job: Job<D, R, P>,
    fields: Vec<(String, String)>,
) -> bool {
    writing::job_written(write_other, job, fields@)
}

/// `message` is how `to_message` writes `event`.
pub open spec fn writes_event<R, P, G: Fn(&QueueStreamEvent<R, P>) -> String>(
    to_message: G,
    event: QueueStreamEvent<R, P>,
    message: String,
) -> bool {
    call_ensures(to_message, (&event,), message)
}

/// Jobs and events can be written.
pub open spec fn can_write<
    D,
    R,
    P,
    F: Fn(JobHashField, &Job<D, R, P>) -> String,
    G: Fn(&QueueStreamEvent<R, P>) -> String,
>(write_other: F, to_message: G) -> bool {
    &&& forall|field: JobHashField, job: &Job<D, R, P>| #[trigger]
        call_requires(write_other, (field, job))
    &&& forall|event: &QueueStreamEvent<R, P>| #[trigger] call_requires(to_message, (event,))
}

/// The key `queue_name:suffix` in lower case.
pub open spec fn lower_key(queue_name: Seq<char>, suffix: CollectionSuffix) -> Seq<char> {
    lowercase::compact_lowercase(queue_name + ":"@ + suffix.words())
}

/// The key `queue_name:id`.
pub open spec fn job_key(queue_name: Seq<char>, id: u64) -> Seq<char> {
    queue_name + ":"@ + text::decimal_digits(id as nat)
}

/// The command that puts job `id` where it belongs: a delayed one among the
/// delayed jobs, one with a priority among the prioritized ones, any other one
/// in the list of waiting jobs, or of paused ones while the queue is paused.
/// There is none for a delay that leads to no point in time.
pub open spec fn placing(
    queue_name: Seq<char>,
    is_paused: bool,
    id: u64,
    pc: u64,
    opts: JobOptions,
    dt: int,
    ts: int,
) -> Seq<Seq<Seq<char>>> {
    let member = text::decimal_digits(id as nat);
    if insertion::delay_at(opts.delay, dt) > 0 {
        match opts.delay.next_millis(ts) {
            Some(at) => seq![
                seq!["ZADD"@, queue_name + ":delayed"@, text::signed_digits(at), member],
            ],
            None => Seq::empty(),
        }
    } else if opts.priority > 0 {
        seq![
            seq![
                "ZADD"@,
                lower_key(queue_name, CollectionSuffix::Prioritized),
                text::decimal_digits(scheduling::priority_score(opts.priority, pc) as nat),
                member,
            ],
        ]
    } else {
        seq![
            seq![
                "LPUSH"@,
                lower_key(
                    queue_name,
                    if is_paused {
                        CollectionSuffix::Paused
                    } else {
                        CollectionSuffix::Wait
                    },
                ),
                member,
            ],
        ]
    }
}

/// The command that stores the fields of job `id`.
pub open spec fn storing(queue_name: Seq<char>, id: u64, fields: Seq<(String, String)>) -> Seq<
    Seq<char>,
> {
    seq!["HMSET"@, job_key(queue_name, id)] + command::pair_words(fields)
}

/// What is told of a job with these options.
pub open spec fn told_state(opts: JobOptions, dt: int) -> JobState {
    if insertion::delay_at(opts.delay, dt) > 0 {
        JobState::Delayed
    } else if opts.priority > 0 {
        JobState::Prioritized
    } else {
        JobState::Wait
    }
}

/// The command that appends to the event stream what is told of job `id`.
pub open spec fn appending(
    queue_name: Seq<char>,
    id: u64,
    opts: JobOptions,
    name: Seq<char>,
    dt: int,
) -> Seq<Seq<char>> {
    let delay = insertion::delay_at(opts.delay, dt);
    seq![
        "XADD"@,
        queue_name + ":events"@,
        "*"@,
        "event"@,
        told_state(opts, dt).lower_words(),
        "job_id"@,
        text::decimal_digits(id as nat),
        "name"@,
        name,
    ] + (if delay > 0 {
        seq!["delay"@, text::decimal_digits(delay as nat)]
    } else if opts.priority > 0 {
        seq!["priority"@, text::decimal_digits(opts.priority as nat)]
    } else {
        Seq::empty()
    })
}

/// `event` is what is published of job `id`.
pub open spec fn is_told<R, P>(
    event: QueueStreamEvent<R, P>,
    id: u64,
    opts: JobOptions,
    name: Seq<char>,
    dt: int,
) -> bool {
    let delay = insertion::delay_at(opts.delay, dt);
    &&& event == QueueStreamEvent {
        job_id: id,
        event: told_state(opts, dt),
        name: event.name,
        delay: if delay > 0 {
            Some(delay)
        } else {
            None
        },
        priority: if delay == 0 && opts.priority > 0 {
            Some(opts.priority)
        } else {
            None
        },
        ..QueueStreamEvent::<R, P>::blank(event.id)
    }
    &&& event.name matches Some(own) && own@ == name
}

/// The last command tells of job `id`: in the stream, or to who listens.
pub open spec fn telling<R, P, G: Fn(&QueueStreamEvent<R, P>) -> String>(
    queue_name: Seq<char>,
    mode: QueueEventMode,
    id: u64,
    opts: JobOptions,
    name: Seq<char>,
    to_message: G,
    dt: int,
    words: Seq<Seq<char>>,
) -> bool {
    match mode {
        QueueEventMode::Stream => words == appending(queue_name, id, opts, name, dt),
        QueueEventMode::PubSub => exists|event: QueueStreamEvent<R, P>, message: String|
            is_told(event, id, opts, name, dt) && #[trigger] writes_event(
                to_message,
                event,
                message,
            ) && words == seq!["PUBLISH"@, queue_name + ":events"@, message@],
    }
}

/// The commands that insert a job were added to those there were, or the job
/// was refused for its delay and none was added.
pub open spec fn prepared<
    D,
    R,
    P,
    F: Fn(JobHashField, &Job<D, R, P>) -> String,
    G: Fn(&QueueStreamEvent<R, P>) -> String,
>(
    before: Seq<Seq<Seq<char>>>,
    queue_name: Seq<char>,
    mode: QueueEventMode,
    is_paused: bool,
    id: u64,
    pc: u64,
    opts: JobOptions,
    job: Job<D, R, P>,
    name: Seq<char>,
    write_other: F,
    to_message: G,
    dt: int,
    ts: int,
    result: KioResult<()>,
    after: Seq<Seq<Seq<char>>>,
    job_after: Job<D, R, P>,
) -> bool {
    let delay = insertion::delay_at(opts.delay, dt);
    if insertion::too_short(delay) {
        &&& result matches Err(KioError::QueueError(error))
        &&& error == QueueError::DelayBelowAllowedLimit {
            limit_ms: MIN_DELAY_MS_LIMIT,
            current_ms: delay,
        }
        &&& after == before
        &&& job_after == insertion::with_opts(job, opts)
    } else {
        &&& result is Ok
        &&& job_after == Job {
            id: Some(id),
            state: insertion::placed_state(opts, dt, ts, job.state),
            ..insertion::with_opts(job, opts)
        }
        &&& exists|fields: Vec<(String, String)>, last: Seq<Seq<char>>| #[trigger]
            writes_job(write_other, job_after, fields) && #[trigger] telling::<R, P, G>(
                queue_name,
                mode,
                id,
                opts,
                name,
                to_message,
                dt,
                last,
            ) && after == (before + placing(queue_name, is_paused, id, pc, opts, dt, ts)).push(
                storing(queue_name, id, fields@),
            ).push(last)
    }
}

/// The insertion can be prepared: the delay leads to a point of the calendar,
/// and the score is a number, where one is needed.
pub open spec fn preparable(job_ts: int, opts: JobOptions, pc: u64, dt: int, ts: int) -> bool {
    &&& opts.delay.diff_millis(dt) is Some
    &&& opts.delay.diff_millis(job_ts) is Some
    &&& opts.delay.fits_calendar(ts)
    &&& insertion::score_fits(opts, pc, dt)
}

/// Adds to `pipeline` the command that puts a job where it belongs, and gives
/// the job its state.
fn place<D, R, P>(
    queue_name: &str,
    is_paused: bool,
    id: u64,
    pc: u64,
    priority: u64,
    delay: u64,
    expected_dt_ts: Option<i64>,
    job: &mut Job<D, R, P>,
    pipeline: &mut redis::Pipeline,
    Ghost(opts): Ghost<JobOptions>,
    Ghost(dt): Ghost<int>,
    Ghost(ts): Ghost<int>,
)
    requires
        opts.priority == priority,
        delay == insertion::delay_at(opts.delay, dt),
        match expected_dt_ts {
            Some(at) => opts.delay.next_millis(ts) == Some(at as int),
            None => opts.delay.next_millis(ts) is None,
        },
        insertion::score_fits(opts, pc, dt),
    ensures
        pipeline::commands(*final(pipeline)) == pipeline::commands(*old(pipeline)) + placing(
            queue_name@,
            is_paused,
            id,
            pc,
            opts,
            dt,
            ts,
        ),
        pipeline::in_transaction(*final(pipeline)) == pipeline::in_transaction(*old(pipeline)),
        *final(job) == (Job {
            state: insertion::placed_state(opts, dt, ts, old(job).state),
            ..*old(job)
        }),
{
    let ghost before = pipeline::commands(*pipeline);
    let member = decimal(id);
    if delay > 0 {
        if let Some(expected_active_time) = expected_dt_ts {
            let mut key = String::from_str(queue_name);
            key.append(":delayed");
            pipeline_add(
                pipeline,
                command_with_three(
                    "ZADD",
                    key.as_str(),
                    signed(expected_active_time).as_str(),
                    member.as_str(),
                ),
            );
            job.state = JobState::Delayed;
        }
    } else if priority > 0 {
        let mut key = String::from_str(queue_name);
        key.append(":");
        key.append(CollectionSuffix::Prioritized.text().as_str());
        let key = to_compact_lowercase(key.as_str());
        let score: u64 = calculate_next_priority_score(priority, pc);
        pipeline_add(
            pipeline,
            command_with_three("ZADD", key.as_str(), decimal(score).as_str(), member.as_str()),
        );
        job.state = JobState::Prioritized;
    } else {
        let waiting_or_paused = if is_paused {
            CollectionSuffix::Paused
        } else {
            CollectionSuffix::Wait
        };
        let mut key = String::from_str(queue_name);
        key.append(":");
        key.append(waiting_or_paused.text().as_str());
        let key = to_compact_lowercase(key.as_str());
        pipeline_add(pipeline, command_with_two("LPUSH", key.as_str(), member.as_str()));
    }
    assert(pipeline::commands(*pipeline) =~= before + placing(
        queue_name@,
        is_paused,
        id,
        pc,
        opts,
        dt,
        ts,
    ));
}

/// The command that appends to the event stream what is told of job `id`.
fn append_command(
    queue_name: &str,
    id: u64,
    priority: u64,
    delay: u64,
    name: &str,
    Ghost(opts): Ghost<JobOptions>,
    Ghost(dt): Ghost<int>,
) -> (command: redis::Cmd)
    requires
        opts.priority == priority,
        delay == insertion::delay_at(opts.delay, dt),
    ensures
        pipeline::arguments(command) == appending(queue_name@, id, opts, name@, dt),
{
    let event = if delay > 0 {
        JobState::Delayed
    } else if priority > 0 {
        JobState::Prioritized
    } else {
        JobState::Wait
    };
    let mut key = String::from_str(queue_name);
    key.append(":events");
    let mut words: Vec<String> = Vec::new();
    words.push(String::from_str("XADD"));
    words.push(key);
    words.push(String::from_str("*"));
    words.push(String::from_str("event"));
    words.push(event.lower_name());
    words.push(String::from_str("job_id"));
    words.push(decimal(id));
    words.push(String::from_str("name"));
    words.push(String::from_str(name));
    if delay > 0 {
        words.push(String::from_str("delay"));
        words.push(decimal(delay));
    } else if priority > 0 {
        words.push(String::from_str("priority"));
        words.push(decimal(priority));
    }
    assert(pipeline::words_of(words@) =~= appending(queue_name@, id, opts, name@, dt));
    command_of(words)
}

/// Adds the commands that insert `job` under `id`, looked at at `dt` and `ts`,
/// to `pipeline`: the one that puts it where it belongs, the one that stores
/// it, and the one that tells of it. A delay that is too short is refused.
pub fn prepare_for_insert_at<
    D,
    R,
    P,
    F: Fn(JobHashField, &Job<D, R, P>) -> String,
    G: Fn(&QueueStreamEvent<R, P>) -> String,
>(
    queue_name: &str,
    event_mode: QueueEventMode,
    is_paused: bool,
    id: u64,
    prior_counter: u64,
    opts: JobOptions,
    job: &mut Job<D, R, P>,
    name: &str,
    pipeline: &mut redis::Pipeline,
    write_other: &F,
    to_message: &G,
    dt: &Dt,
    ts: &Dt,
    event_id: StreamEventId,
) -> (result: KioResult<()>)
    requires
        preparable(old(job).ts@, opts, prior_counter, dt@, ts@),
        can_write(*write_other, *to_message),
    ensures
        prepared(
            pipeline::commands(*old(pipeline)),
            queue_name@,
            event_mode,
            is_paused,
            id,
            prior_counter,
            opts,
            *old(job),
            name@,
            *write_other,
            *to_message,
            dt@,
            ts@,
            result,
            pipeline::commands(*final(pipeline)),
            *final(job),
        ),
        pipeline::in_transaction(*final(pipeline)) == (result is Ok || pipeline::in_transaction(
            *old(pipeline),
        )),
{
    let ghost given = opts;
    let ghost before = pipeline::commands(*pipeline);
    let priority: u64 = opts.priority;
    let expected_dt_ts = opts.delay.next_occurrance_timestamp_ms_at(ts);
    let delay: u64 = opts.delay.as_diff_ms(dt) as u64;
    job.add_opts(opts);
    if delay > 0 && delay < MIN_DELAY_MS_LIMIT {
        return Err(
            KioError::QueueError(
                QueueError::DelayBelowAllowedLimit {
                    limit_ms: MIN_DELAY_MS_LIMIT,
                    current_ms: delay,
                },
            ),
        );
    }
    pipeline_atomic(pipeline);
    place(
        queue_name,
        is_paused,
        id,
        prior_counter,
        priority,
        delay,
        expected_dt_ts,
        job,
        pipeline,
        Ghost(given),
        Ghost(dt@),
        Ghost(ts@),
    );
    job.id = Some(id);
    let fields = job_pairs(job, write_other);
    assert(writes_job(*write_other, *job, fields));
    let ghost written = fields@;
    let mut key = String::from_str(queue_name);
    key.append(":");
    key.append(decimal(id).as_str());
    let mut words: Vec<String> = Vec::new();
    words.push(String::from_str("HMSET"));
    words.push(key);
    assert(pipeline::words_of(words@) =~= seq!["HMSET"@, job_key(queue_name@, id)]);
    let ghost kept = fields;
    add_pairs(&mut words, fields);
    pipeline_add(pipeline, command_of(words));
    let ghost stored = pipeline::commands(*pipeline);
    assert(stored == (before + placing(
        queue_name@,
        is_paused,
        id,
        prior_counter,
        given,
        dt@,
        ts@,
    )).push(storing(queue_name@, id, written)));
    match event_mode {
        QueueEventMode::PubSub => {
            let mut event = QueueStreamEvent::<R, P>::with_id(event_id);
            event.job_id = id;
            event.event = if delay > 0 {
                JobState::Delayed
            } else if priority > 0 {
                JobState::Prioritized
            } else {
                JobState::Wait
            };
            event.name = Some(String::from_str(name));
            if delay > 0 {
                event.delay = Some(delay);
            } else if priority > 0 {
                event.priority = Some(priority);
            }
            let message = to_message(&event);
            assert(is_told(event, id, given, name@, dt@));
            assert(writes_event(*to_message, event, message));
            let mut key = String::from_str(queue_name);
            key.append(":events");
            pipeline_add(pipeline, command_with_two("PUBLISH", key.as_str(), message.as_str()));
        },
        QueueEventMode::Stream => {
            pipeline_add(
                pipeline,
                append_command(queue_name, id, priority, delay, name, Ghost(given), Ghost(dt@)),
            );
        },
    }
    proof {
        let last = pipeline::commands(*pipeline).last();
        assert(pipeline::commands(*pipeline) == stored.push(last));
        assert(telling::<R, P, G>(
            queue_name@,
            event_mode,
            id,
            given,
            name@,
            *to_message,
            dt@,
            last,
        ));
        assert(writes_job(*write_other, *job, kept));
    }
    Ok(())
}

/// The insertion was prepared at `dt` and `ts`, or refused for its delay, or it
/// cannot be carried out and nothing changed.
pub open spec fn prepare_outcome<
    D,
    R,
    P,
    F: Fn(JobHashField, &Job<D, R, P>) -> String,
    G: Fn(&QueueStreamEvent<R, P>) -> String,
>(
    before: Seq<Seq<Seq<char>>>,
    queue_name: Seq<char>,
    mode: QueueEventMode,
    is_paused: bool,
    id: u64,
    pc: u64,
    opts: JobOptions,
    job: Job<D, R, P>,
    name: Seq<char>,
    write_other: F,
    to_message: G,
    dt: Dt,
    ts: Dt,
    result: KioResult<()>,
    after: Seq<Seq<Seq<char>>>,
    job_after: Job<D, R, P>,
) -> bool {
    ||| prepared(
        before,
        queue_name,
        mode,
        is_paused,
        id,
        pc,
        opts,
        job,
        name,
        write_other,
        to_message,
        dt@,
        ts@,
        result,
        after,
        job_after,
    )
    ||| {
        &&& result matches Err(error)
        &&& after == before
        &&& job_after == job
        &&& insertion::not_insertable(job.ts@, opts, pc, dt@, ts@, error)
    }
}

/// Adds the commands that insert `job` under `id` to `pipeline`. Nothing
/// changes where the job cannot be inserted.
pub fn prepare_for_insert<
    D,
    R,
    P,
    F: Fn(JobHashField, &Job<D, R, P>) -> String,
    G: Fn(&QueueStreamEvent<R, P>) -> String,
>(
    queue_name: &str,
    event_mode: QueueEventMode,
    is_paused: bool,
    id: u64,
    prior_counter: u64,
    opts: JobOptions,
    job: &mut Job<D, R, P>,
    name: &str,
    pipeline: &mut redis::Pipeline,
    write_other: &F,
    to_message: &G,
) -> (result: KioResult<()>)
    requires
        can_write(*write_other, *to_message),
    ensures
        exists|dt: Dt, ts: Dt| #[trigger]
            prepare_outcome(
                pipeline::commands(*old(pipeline)),
                queue_name@,
                event_mode,
                is_paused,
                id,
                prior_counter,
                opts,
                *old(job),
                name@,
                *write_other,
                *to_message,
                dt,
                ts,
                result,
                pipeline::commands(*final(pipeline)),
                *final(job),
            ),
        pipeline::in_transaction(*final(pipeline)) == (result is Ok || pipeline::in_transaction(
            *old(pipeline),
        )),
{
    let ghost given = opts;
    let ghost before = pipeline::commands(*pipeline);
    let dt = Dt::now();
    let ts = Dt::now();
    let reached = match &opts.delay {
        JobDelay::TimeMilis(ms) => *ms <= 0 || ts.checked_add_millis(*ms).is_some(),
        JobDelay::FromCron(_) => true,
    };
    assert(reached == opts.delay.fits_calendar(ts@));
    let known = opts.delay.checked_diff_ms(&dt).is_some() && opts.delay.checked_diff_ms(
        &job.ts,
    ).is_some();
    let delay: u64 = if known {
        opts.delay.as_diff_ms(&dt) as u64
    } else {
        0
    };
    let result = if !known {
        Err(
            KioError::CronerError(
                CronError { message: String::from_str("the schedule has no further occurrence") },
            ),
        )
    } else if !reached || (delay == 0 && opts.priority > 0 && !priority_score_fits(
        opts.priority,
        prior_counter,
    )) {
        Err(
            KioError::GeneralError(String::from_str("the delay or the priority is out of range")),
        )
    } else {
        prepare_for_insert_at(
            queue_name,
            event_mode,
            is_paused,
            id,
            prior_counter,
            opts,
            job,
            name,
            pipeline,
            write_other,
            to_message,
            &dt,
            &ts,
            StreamEventId::default(),
        )
    };
    assert(prepare_outcome(
        before,
        queue_name@,
        event_mode,
        is_paused,
        id,
        prior_counter,
        given,
        *old(job),
        name@,
        *write_other,
        *to_message,
        dt,
        ts,
        result,
        pipeline::commands(*pipeline),
        *job,
    ));
    result
}

/// One item of a bulk: a new job was made and its insertion prepared; it has
/// its id whatever came of that.
pub open spec fn one_prepared<
    D,
    R,
    P,
    F: Fn(JobHashField, &Job<D, R, P>) -> String,
    G: Fn(&QueueStreamEvent<R, P>) -> String,
>(
    before: Seq<Seq<Seq<char>>>,
    queue_name: Seq<char>,
    mode: QueueEventMode,
    is_paused: bool,
    id: u64,
    pc: u64,
    opts: JobOptions,
    name: Seq<char>,
    data: D,
    write_other: F,
    to_message: G,
    dt: Dt,
    ts: Dt,
    fresh: Job<D, R, P>,
    result: KioResult<()>,
    prepared_job: Job<D, R, P>,
    after: Seq<Seq<Seq<char>>>,
    job: Job<D, R, P>,
) -> bool {
    &&& fresh.is_new(fresh.ts, name, Some(data), opts.id, Some(queue_name))
    &&& prepare_outcome(
        before,
        queue_name,
        mode,
        is_paused,
        id,
        pc,
        opts,
        fresh,
        name,
        write_other,
        to_message,
        dt,
        ts,
        result,
        after,
        prepared_job,
    )
    &&& job == Job { id: Some(id), ..prepared_job }
}

/// One item of a bulk was handled at some time.
pub open spec fn item_prepared<
    D,
    R,
    P,
    F: Fn(JobHashField, &Job<D, R, P>) -> String,
    G: Fn(&QueueStreamEvent<R, P>) -> String,
>(
    before: Seq<Seq<Seq<char>>>,
    queue_name: Seq<char>,
    mode: QueueEventMode,
    is_paused: bool,
    id: u64,
    pc: u64,
    opts: JobOptions,
    name: Seq<char>,
    data: D,
    write_other: F,
    to_message: G,
    after: Seq<Seq<Seq<char>>>,
    job: Job<D, R, P>,
) -> bool {
    exists|
        dt: Dt,
        ts: Dt,
        fresh: Job<D, R, P>,
        result: KioResult<()>,
        prepared_job: Job<D, R, P>,
    | #[trigger]
        one_prepared(
            before,
            queue_name,
            mode,
            is_paused,
            id,
            pc,
            opts,
            name,
            data,
            write_other,
            to_message,
            dt,
            ts,
            fresh,
            result,
            prepared_job,
            after,
            job,
        )
}

/// How many of the first `n` items have a priority.
pub open spec fn with_priority<D>(
    items: Seq<(String, Option<JobOptions>, D)>,
    queue_opts: QueueOpts,
    n: int,
) -> int
    decreases n,
{
    if n <= 0 {
        0
    } else {
        with_priority(items, queue_opts, n - 1) + if insertion::effective_opts(
            queue_opts,
            items[n - 1].1,
        ).priority > 0 {
            1int
        } else {
            0int
        }
    }
}

/// There are at most `n` with a priority among the first `n`.
proof fn lemma_with_priority<D>(
    items: Seq<(String, Option<JobOptions>, D)>,
    queue_opts: QueueOpts,
    n: int,
)
    requires
        0 <= n,
    ensures
        0 <= with_priority(items, queue_opts, n) <= n,
    decreases n,
{
    if n > 0 {
        lemma_with_priority(items, queue_opts, n - 1);
    }
}

/// The first items, as many as there are jobs, were handled one after the
/// other. The ids count from `last_id`, where the options of a job give none, and
/// the counters of those with a priority from `last_pc`.
pub open spec fn items_prepared<
    D,
    R,
    P,
    F: Fn(JobHashField, &Job<D, R, P>) -> String,
    G: Fn(&QueueStreamEvent<R, P>) -> String,
>(
    before: Seq<Seq<Seq<char>>>,
    queue_name: Seq<char>,
    mode: QueueEventMode,
    is_paused: bool,
    last_id: u64,
    last_pc: u64,
    queue_opts: QueueOpts,
    items: Seq<(String, Option<JobOptions>, D)>,
    write_other: F,
    to_message: G,
    jobs: Seq<Job<D, R, P>>,
    after: Seq<Seq<Seq<char>>>,
) -> bool
    decreases jobs.len(),
{
    if jobs.len() == 0 {
        after == before
    } else {
        exists|mid: Seq<Seq<Seq<char>>>|
            items_prepared(
                before,
                queue_name,
                mode,
                is_paused,
                last_id,
                last_pc,
                queue_opts,
                items,
                write_other,
                to_message,
                jobs.drop_last(),
                mid,
            ) && #[trigger] item_prepared(
                mid,
                queue_name,
                mode,
                is_paused,
                insertion::given_id(
                    insertion::effective_opts(queue_opts, items[jobs.len() - 1].1),
                    (last_id + jobs.len()) as u64,
                ),
                (last_pc + 1 + with_priority(items, queue_opts, jobs.len() - 1)) as u64,
                insertion::effective_opts(queue_opts, items[jobs.len() - 1].1),
                items[jobs.len() - 1].0@,
                items[jobs.len() - 1].2,
                write_other,
                to_message,
                after,
                jobs.last(),
            )
    }
}

/// The commands that count a bulk: the ids by the number of items, and those
/// with a priority, where there is one, by their number.
pub open spec fn counting(
    id_key: Seq<char>,
    pc_key: Seq<char>,
    added: int,
    prioritized: int,
) -> Seq<Seq<Seq<char>>> {
    seq![seq!["INCRBY"@, id_key, text::decimal_digits(added as nat)]] + (if prioritized > 0 {
        seq![seq!["INCRBY"@, pc_key, text::decimal_digits(prioritized as nat)]]
    } else {
        Seq::empty()
    })
}

impl RedisStore {
    /// Adds the commands that insert the jobs of a bulk, and those that count
    /// them, to `pipeline`. `last_id` and `last_pc` are the counters as they
    /// stand in the store. Gives the jobs, where they are asked for; one whose
    /// insertion was refused is among them.
    pub fn add<
        D,
        R,
        P,
        F: Fn(JobHashField, &Job<D, R, P>) -> String,
        G: Fn(&QueueStreamEvent<R, P>) -> String,
    >(
        &self,
        items: Vec<(String, Option<JobOptions>, D)>,
        queue_opts: &QueueOpts,
        event_mode: QueueEventMode,
        is_paused: bool,
        return_jobs: bool,
        last_id: Option<u64>,
        last_pc: Option<u64>,
        pipeline: &mut redis::Pipeline,
        write_other: &F,
        to_message: &G,
    ) -> (jobs: Vec<Job<D, R, P>>)
        requires
            can_write(*write_other, *to_message),
            super::number_or_zero(last_id) + items@.len() < u64::MAX,
            super::number_or_zero(last_pc) + items@.len() < u64::MAX,
        ensures
            exists|all: Seq<Job<D, R, P>>, mid: Seq<Seq<Seq<char>>>|
                {
                    &&& all.len() == items@.len()
                    &&& #[trigger] items_prepared(
                        pipeline::commands(*old(pipeline)),
                        self.queue_words(),
                        event_mode,
                        is_paused,
                        super::number_or_zero(last_id),
                        super::number_or_zero(last_pc),
                        *queue_opts,
                        items@,
                        *write_other,
                        *to_message,
                        all,
                        mid,
                    )
                    &&& pipeline::commands(*final(pipeline)) == mid + counting(
                        self.key_words(CollectionSuffix::Id),
                        self.key_words(CollectionSuffix::PriorityCounter),
                        items@.len() as int,
                        with_priority(items@, *queue_opts, items@.len() as int),
                    )
                    &&& jobs@ == if return_jobs {
                        all
                    } else {
                        Seq::empty()
                    }
                },
    {
        let ghost list = items@;
        let ghost before = pipeline::commands(*pipeline);
        let total: u64 = items.len() as u64;
        let last_id: u64 = match last_id {
            Some(last_id) => last_id,
            None => 0,
        };
        let last_pc: u64 = match last_pc {
            Some(last_pc) => last_pc,
            None => 0,
        };
        let mut todo = items;
        let mut rest: Vec<(String, Option<JobOptions>, D)> = Vec::new();
        while todo.len() > 0
            invariant
                todo@ + rest@.reverse() =~= list,
            decreases todo.len(),
        {
            if let Some(item) = todo.pop() {
                rest.push(item);
            }
        }
        assert(rest@.reverse() =~= list);
        let queue_name = self.queue();
        let mut jobs: Vec<Job<D, R, P>> = Vec::new();
        let ghost mut all: Seq<Job<D, R, P>> = Seq::empty();
        let mut id: u64 = last_id + 1;
        let mut pc: u64 = last_pc + 1;
        while rest.len() > 0
            invariant
                can_write(*write_other, *to_message),
                rest@.len() <= list.len(),
                rest@ =~= list.skip(list.len() - rest@.len()).reverse(),
                all.len() == list.len() - rest@.len(),
                queue_name@ == self.queue_words(),
                last_id + list.len() < u64::MAX,
                last_pc + list.len() < u64::MAX,
                id == last_id + 1 + all.len(),
                pc == last_pc + 1 + with_priority(list, *queue_opts, all.len() as int),
                0 <= with_priority(list, *queue_opts, all.len() as int) <= all.len(),
                items_prepared(
                    before,
                    queue_name@,
                    event_mode,
                    is_paused,
                    last_id,
                    last_pc,
                    *queue_opts,
                    list,
                    *write_other,
                    *to_message,
                    all,
                    pipeline::commands(*pipeline),
                ),
                jobs@ == if return_jobs {
                    all
                } else {
                    Seq::empty()
                },
            decreases rest.len(),
        {
            let ghost left = rest@;
            let ghost k = list.len() - left.len();
            let ghost mid = pipeline::commands(*pipeline);
            let ghost done = all;
            if let Some((name, opts, data)) = rest.pop() {
                let ghost given = opts;
                let ghost payload = data;
                assert(left[left.len() - 1] == list[k]);
                let mut opts = match opts {
                    Some(opts) => opts,
                    None => JobOptions::default(),
                };
                update_job_opts(queue_opts, &mut opts);
                let ghost effective = opts;
                assert(effective == insertion::effective_opts(*queue_opts, given));
                let own_id: u64 = id_for(&opts, id);
                let prioritized = opts.priority > 0;
                let mut job = Job::<D, R, P>::new(
                    name.as_str(),
                    Some(data),
                    opts.id,
                    Some(queue_name.as_str()),
                );
                let ghost fresh = job;
                let result = prepare_for_insert(
                    queue_name.as_str(),
                    event_mode,
                    is_paused,
                    own_id,
                    pc,
                    opts,
                    &mut job,
                    name.as_str(),
                    pipeline,
                    write_other,
                    to_message,
                );
                let ghost prepared_job = job;
                job.id = Some(own_id);
                proof {
                    let (dt, ts): (Dt, Dt) = choose|dt: Dt, ts: Dt| #[trigger]
                        prepare_outcome(
                            mid,
                            queue_name@,
                            event_mode,
                            is_paused,
                            own_id,
                            pc,
                            effective,
                            fresh,
                            name@,
                            *write_other,
                            *to_message,
                            dt,
                            ts,
                            result,
                            pipeline::commands(*pipeline),
                            prepared_job,
                        );
                    assert(one_prepared(
                        mid,
                        queue_name@,
                        event_mode,
                        is_paused,
                        own_id,
                        pc,
                        effective,
                        name@,
                        payload,
                        *write_other,
                        *to_message,
                        dt,
                        ts,
                        fresh,
                        result,
                        prepared_job,
                        pipeline::commands(*pipeline),
                        job,
                    ));
                    all = done.push(job);
                    assert(all.drop_last() =~= done);
                    lemma_with_priority(list, *queue_opts, k + 1);
                    assert(item_prepared(
                        mid,
                        queue_name@,
                        event_mode,
                        is_paused,
                        insertion::given_id(
                            insertion::effective_opts(*queue_opts, list[all.len() - 1].1),
                            (last_id + all.len()) as u64,
                        ),
                        (last_pc + 1 + with_priority(list, *queue_opts, all.len() - 1)) as u64,
                        insertion::effective_opts(*queue_opts, list[all.len() - 1].1),
                        list[all.len() - 1].0@,
                        list[all.len() - 1].2,
                        *write_other,
                        *to_message,
                        pipeline::commands(*pipeline),
                        all.last(),
                    ));
                }
                id += 1;
                if prioritized {
                    pc += 1;
                }
                if return_jobs {
                    jobs.push(job);
                }
            }
        }
        let ghost mid = pipeline::commands(*pipeline);
        let id_key = self.key(CollectionSuffix::Id);
        pipeline_add(
            pipeline,
            command_with_two("INCRBY", id_key.as_str(), decimal(total).as_str()),
        );
        if pc > last_pc + 1 {
            let pc_key = self.key(CollectionSuffix::PriorityCounter);
            pipeline_add(
                pipeline,
                command_with_two("INCRBY", pc_key.as_str(), decimal(pc - last_pc - 1).as_str()),
            );
        }
        assert(pipeline::commands(*pipeline) =~= mid + counting(
            self.key_words(CollectionSuffix::Id),
            self.key_words(CollectionSuffix::PriorityCounter),
            list.len() as int,
            with_priority(list, *queue_opts, list.len() as int),
        ));
        jobs
    }
}

/// A job is stored under the key that it is read from, as long as the queue's
/// name is in lower case.
pub proof fn law_job_is_read_where_it_is_stored(prefix: Seq<char>, name: Seq<char>, id: u64)
    requires
        lowercase::compact_lowercase(CollectionSuffix::Job(id).full_name(prefix, name))
            == CollectionSuffix::Job(id).full_name(prefix, name),
    ensures
        job_key(prefix + ":"@ + name, id) == lowercase::compact_lowercase(
            CollectionSuffix::Job(id).full_name(prefix, name),
        ),
{
    assert(job_key(prefix + ":"@ + name, id) =~= CollectionSuffix::Job(id).full_name(prefix, name));
}

} // verus!
