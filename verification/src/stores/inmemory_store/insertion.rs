//! Adding jobs.
use super::records;
use super::{store_key, InMemoryStore};
use crate::error::{KioError, KioResult, QueueError};
use crate::events::{QueueStreamEvent, StreamEventId};
use crate::job::{CronError, Job, JobDelay, JobOptions, JobState};
use crate::outside::scored_ids;
use crate::queue::{CollectionSuffix, QueueOpts};
use crate::stores::state::{self, StoreState};
use crate::time::Dt;
use crate::utils::scheduling;
use crate::utils::scheduling::{
    calculate_next_priority_score, priority_score_fits, update_job_opts,
};
use crate::worker::MIN_DELAY_MS_LIMIT;
use vstd::prelude::*;

verus! {

/// The delay of a job in milliseconds, looked at at `dt`.
pub open spec fn delay_at(delay: JobDelay, dt: int) -> u64 {
    ((delay.diff_millis(dt)->0) as i64) as u64
}

/// A delay that is too short to be accepted.
pub open spec fn too_short(delay: u64) -> bool {
    0 < delay && delay < MIN_DELAY_MS_LIMIT
}

/// After job `id` was put where it belongs: a delayed one among the delayed
/// jobs, one with a priority among the prioritized ones, any other one in the
/// list of waiting jobs, or of paused ones while the queue is paused. A delay
/// that leads to no point in time puts the job nowhere.
pub open spec fn placed<D, R, P, M>(
    before: StoreState<D, R, P, M>,
    opts: JobOptions,
    pc: u64,
    id: u64,
    is_paused: bool,
    dt: int,
    ts: int,
) -> StoreState<D, R, P, M> {
    if delay_at(opts.delay, dt) > 0 {
        match opts.delay.next_millis(ts) {
            Some(at) => StoreState {
                delayed: scored_ids::scored(before.delayed, (at as i64) as i128, id),
                ..before
            },
            None => before,
        }
    } else if opts.priority > 0 {
        StoreState {
            prioritized: scored_ids::scored(
                before.prioritized,
                scheduling::priority_score(opts.priority, pc) as i128,
                id,
            ),
            ..before
        }
    } else if is_paused {
        StoreState { paused: before.paused.pushed_front(id), ..before }
    } else {
        StoreState { waiting: before.waiting.pushed_front(id), ..before }
    }
}

/// The state of a job after it was put where it belongs.
pub open spec fn placed_state(opts: JobOptions, dt: int, ts: int, before: JobState) -> JobState {
    if delay_at(opts.delay, dt) > 0 {
        if opts.delay.next_millis(ts) is Some {
            JobState::Delayed
        } else {
            before
        }
    } else if opts.priority > 0 {
        JobState::Prioritized
    } else {
        before
    }
}

/// What is announced of a job that was put where it belongs.
pub open spec fn announced(opts: JobOptions, is_paused: bool, dt: int, ts: int) -> JobState {
    placed_state(
        opts,
        dt,
        ts,
        if is_paused {
            JobState::Paused
        } else {
            JobState::Wait
        },
    )
}

/// The job after options were taken over.
pub open spec fn with_opts<D, R, P>(job: Job<D, R, P>, opts: JobOptions) -> Job<D, R, P> {
    Job { priority: opts.priority, delay: delay_at(opts.delay, job.ts@), opts, ..job }
}

/// The event of a job that was added.
pub open spec fn added_event<R, P>(
    event: QueueStreamEvent<R, P>,
    opts: JobOptions,
    id: u64,
    name: Seq<char>,
    is_paused: bool,
    dt: int,
    ts: int,
) -> bool {
    let delay = delay_at(opts.delay, dt);
    &&& event == QueueStreamEvent {
        job_id: id,
        event: announced(opts, is_paused, dt, ts),
        name: event.name,
        delay: if delay > 0 {
            Some(delay)
        } else {
            None
        },
        priority: if delay == 0 && opts.priority > 0 {
            Some(opts.priority)
        } else {
            None
        },
        ..QueueStreamEvent::<R, P>::blank(event.id)
    }
    &&& event.name matches Some(own) && own@ == name
}

/// Job `id` was inserted, or refused for its delay.
pub open spec fn inserted<D: Clone, R: Clone, P: Clone, M>(
    before: StoreState<D, R, P, M>,
    job: Job<D, R, P>,
    opts: JobOptions,
    pc: u64,
    id: u64,
    name: Seq<char>,
    is_paused: bool,
    dt: int,
    ts: int,
    result: KioResult<QueueStreamEvent<R, P>>,
    after: StoreState<D, R, P, M>,
    job_after: Job<D, R, P>,
) -> bool {
    let delay = delay_at(opts.delay, dt);
    if too_short(delay) {
        &&& result matches Err(KioError::QueueError(error))
        &&& error == QueueError::DelayBelowAllowedLimit {
            limit_ms: MIN_DELAY_MS_LIMIT,
            current_ms: delay,
        }
        &&& after == before
        &&& job_after == with_opts(job, opts)
    } else {
        &&& result matches Ok(event)
        &&& added_event(event, opts, id, name, is_paused, dt, ts)
        &&& job_after == Job {
            id: Some(id),
            state: placed_state(opts, dt, ts, job.state),
            ..with_opts(job, opts)
        }
        &&& exists|stored: Job<D, R, P>| #[trigger]
            stored.copy_of(job_after) && after == (StoreState {
                jobs: before.jobs.with_constant(records::job_key(id), stored),
                ..placed(before, opts, pc, id, is_paused, dt, ts)
            })
    }
}

/// The score that a job with these options is put under, looked at at `dt`, is a
/// number. A delayed job needs none, whatever its priority.
pub open spec fn score_fits(opts: JobOptions, pc: u64, dt: int) -> bool {
    delay_at(opts.delay, dt) == 0 && opts.priority > 0 ==> scheduling::priority_score(
        opts.priority,
        pc,
    ) <= u64::MAX
}

/// The insertion can be carried out: the delay leads to a point of the
/// calendar, the score is a number, where one is needed, and there is room.
pub open spec fn insertable<D, R, P, M>(
    state: StoreState<D, R, P, M>,
    job_ts: int,
    opts: JobOptions,
    pc: u64,
    is_paused: bool,
    dt: int,
    ts: int,
) -> bool {
    &&& opts.delay.diff_millis(dt) is Some
    &&& opts.delay.diff_millis(job_ts) is Some
    &&& opts.delay.fits_calendar(ts)
    &&& score_fits(opts, pc, dt)
    &&& state.has_room(CollectionSuffix::Wait, false)
    &&& state.has_room(CollectionSuffix::Paused, false)
}

/// Why a job could not be inserted although its delay is long enough: its
/// schedule has no further occurrence, its delay leads past the calendar, or
/// its priority's score is needed and no number.
pub open spec fn not_insertable(
    job_ts: int,
    opts: JobOptions,
    pc: u64,
    dt: int,
    ts: int,
    error: KioError,
) -> bool {
    if opts.delay.diff_millis(dt) is None || opts.delay.diff_millis(job_ts) is None {
        error is CronerError
    } else {
        error is GeneralError && (!opts.delay.fits_calendar(ts) || !score_fits(opts, pc, dt))
    }
}

/// A job was inserted at `dt` and `ts`, or refused for its delay, or it could
/// not be inserted and nothing changed.
pub open spec fn insert_outcome<D: Clone, R: Clone, P: Clone, M>(
    before: StoreState<D, R, P, M>,
    job: Job<D, R, P>,
    opts: JobOptions,
    pc: u64,
    id: u64,
    name: Seq<char>,
    is_paused: bool,
    dt: Dt,
    ts: Dt,
    result: KioResult<QueueStreamEvent<R, P>>,
    after: StoreState<D, R, P, M>,
    job_after: Job<D, R, P>,
) -> bool {
    ||| inserted(
        before,
        job,
        opts,
        pc,
        id,
        name,
        is_paused,
        dt@,
        ts@,
        result,
        after,
        job_after,
    )
    ||| {
        &&& result matches Err(error)
        &&& after == before
        &&& job_after == job
        &&& not_insertable(job.ts@, opts, pc, dt@, ts@, error)
    }
}

/// The priority counter of the next job: the next one for a job with a
/// priority, zero for any other.
pub open spec fn next_priority_counter<D, R, P, M>(
    before: StoreState<D, R, P, M>,
    opts: JobOptions,
) -> u64 {
    if opts.priority > 0 {
        state::bumped(before.priority_counter, 1)
    } else {
        0
    }
}

/// The id of a job: the one that its options give, else the next one.
pub open spec fn given_id(opts: JobOptions, next: u64) -> u64 {
    match opts.id {
        Some(id) => id,
        None => next,
    }
}

/// The id of a job: the one that its options give, else the next one.
pub(crate) fn id_for(opts: &JobOptions, next: u64) -> (id: u64)
    ensures
        id == given_id(*opts, next),
{
    match opts.id {
        Some(id) => id,
        None => next,
    }
}

/// After the counters counted one more job.
pub open spec fn counted_in<D, R, P, M>(
    before: StoreState<D, R, P, M>,
    opts: JobOptions,
) -> StoreState<D, R, P, M> {
    StoreState {
        priority_counter: if opts.priority > 0 {
            state::bumped(before.priority_counter, 1)
        } else {
            before.priority_counter
        },
        id_counter: state::bumped(before.id_counter, 1),
        ..before
    }
}

/// A job was added at some time, or not; the counters count either way.
pub open spec fn one_added<D: Clone, R: Clone, P: Clone, M>(
    before: StoreState<D, R, P, M>,
    name: Seq<char>,
    data: D,
    opts: JobOptions,
    is_paused: bool,
    created: Dt,
    dt: Dt,
    ts: Dt,
    fresh: Job<D, R, P>,
    result: KioResult<(Job<D, R, P>, QueueStreamEvent<R, P>)>,
    after: StoreState<D, R, P, M>,
) -> bool {
    let pc = next_priority_counter(before, opts);
    let id = given_id(opts, state::bumped(before.id_counter, 1));
    let counted = counted_in(before, opts);
    &&& fresh.is_new(
        created,
        name,
        Some(data),
        opts.id,
        Some(before.prefix + ":"@ + before.name),
    )
    &&& match result {
        Ok((job, event)) => insert_outcome(
            counted,
            fresh,
            opts,
            pc,
            id,
            name,
            is_paused,
            dt,
            ts,
            Ok(event),
            after,
            job,
        ),
        Err(error) => exists|job: Job<D, R, P>| #[trigger]
            insert_outcome(
                counted,
                fresh,
                opts,
                pc,
                id,
                name,
                is_paused,
                dt,
                ts,
                Err::<QueueStreamEvent<R, P>, KioError>(error),
                after,
                job,
            ),
    }
}

/// The options of a job after what it leaves open was taken from the queue;
/// a job without options leaves everything open.
pub open spec fn effective_opts(queue_opts: QueueOpts, opts: Option<JobOptions>) -> JobOptions {
    scheduling::inherited(
        queue_opts,
        match opts {
            Some(opts) => opts,
            None => JobOptions::unset(),
        },
    )
}

/// One item of a bulk: the job was added, or not, at some time.
pub open spec fn item_handled<D: Clone, R: Clone, P: Clone, M>(
    before: StoreState<D, R, P, M>,
    item: (String, Option<JobOptions>, D),
    queue_opts: QueueOpts,
    is_paused: bool,
    result: KioResult<(Job<D, R, P>, QueueStreamEvent<R, P>)>,
    after: StoreState<D, R, P, M>,
) -> bool {
    exists|created: Dt, dt: Dt, ts: Dt, fresh: Job<D, R, P>| #[trigger]
        one_added(
            before,
            item.0@,
            item.2,
            effective_opts(queue_opts, item.1),
            is_paused,
            created,
            dt,
            ts,
            fresh,
            result,
            after,
        )
}

/// The first items of a bulk, as many as there are in `added`, were added one
/// after the other.
pub open spec fn items_added<D: Clone, R: Clone, P: Clone, M>(
    before: StoreState<D, R, P, M>,
    items: Seq<(String, Option<JobOptions>, D)>,
    queue_opts: QueueOpts,
    is_paused: bool,
    added: Seq<(Job<D, R, P>, QueueStreamEvent<R, P>)>,
    after: StoreState<D, R, P, M>,
) -> bool
    decreases added.len(),
{
    if added.len() == 0 {
        after == before
    } else {
        exists|mid: StoreState<D, R, P, M>|
            items_added(before, items, queue_opts, is_paused, added.drop_last(), mid)
                && #[trigger] item_handled(
                mid,
                items[added.len() - 1],
                queue_opts,
                is_paused,
                Ok(added.last()),
                after,
            )
    }
}

/// The first items of a bulk were added, and the one behind them could not be.
pub open spec fn stopped_at<D: Clone, R: Clone, P: Clone, M>(
    before: StoreState<D, R, P, M>,
    items: Seq<(String, Option<JobOptions>, D)>,
    queue_opts: QueueOpts,
    is_paused: bool,
    added: Seq<(Job<D, R, P>, QueueStreamEvent<R, P>)>,
    error: KioError,
    after: StoreState<D, R, P, M>,
) -> bool {
    &&& added.len() < items.len()
    &&& exists|mid: StoreState<D, R, P, M>|
        items_added(before, items, queue_opts, is_paused, added, mid) && #[trigger] item_handled(
            mid,
            items[added.len() as int],
            queue_opts,
            is_paused,
            Err::<(Job<D, R, P>, QueueStreamEvent<R, P>), KioError>(error),
            after,
        )
}

impl<D: Clone, R: Clone, P: Clone, M> InMemoryStore<D, R, P, M> {
    /// Inserts `job` under `id`, looked at at `dt` and `ts`, and gives the
    /// event to publish.
    pub fn insert_at(
        &mut self,
        job: &mut Job<D, R, P>,
        opts: JobOptions,
        pc: u64,
        id: u64,
        name: &str,
        is_paused: bool,
        dt: &Dt,
        ts: &Dt,
        event_id: StreamEventId,
    ) -> (event: KioResult<QueueStreamEvent<R, P>>)
        requires
            old(self).wf(),
            insertable(old(self)@, old(job).ts@, opts, pc, is_paused, dt@, ts@),
        ensures
            final(self).wf(),
            inserted(
                old(self)@,
                *old(job),
                opts,
                pc,
                id,
                name@,
                is_paused,
                dt@,
                ts@,
                event,
                final(self)@,
                *final(job),
            ),
            event matches Ok(event) ==> event.id == event_id,
    {
        let ghost given = opts;
        let priority: u64 = opts.priority;
        let expected_dt_ts = opts.delay.next_occurrance_timestamp_ms_at(ts);
        let delay: u64 = opts.delay.as_diff_ms(dt) as u64;
        job.add_opts(opts);
        if delay > 0 && delay < MIN_DELAY_MS_LIMIT {
            return Err(
                KioError::QueueError(
                    QueueError::DelayBelowAllowedLimit {
                        limit_ms: MIN_DELAY_MS_LIMIT,
                        current_ms: delay,
                    },
                ),
            );
        }
        let mut event = JobState::Wait;
        let waiting_or_paused = if is_paused {
            event = JobState::Paused;
            CollectionSuffix::Paused
        } else {
            CollectionSuffix::Wait
        };
        let to_delay = delay > 0;
        let to_priorize = priority > 0 && !to_delay;
        if to_delay {
            if let Some(expected_active_time) = expected_dt_ts {
                self.add_item(CollectionSuffix::Delayed, id, Some(expected_active_time), false);
                job.state = JobState::Delayed;
                event = JobState::Delayed;
            }
        } else if to_priorize {
            let score: u64 = calculate_next_priority_score(priority, pc);
            job.state = JobState::Prioritized;
            self.prioritized.insert(score as i128, id);
            event = JobState::Prioritized;
        } else {
            self.add_item(waiting_or_paused, id, None, false);
        }
        assert(self@ == placed(old(self)@, given, pc, id, is_paused, dt@, ts@));
        job.id = Some(id);
        let job_key: u128 = store_key(CollectionSuffix::Job(id));
        let stored = job.clone();
        assert(stored.copy_of(*job));
        self.jobs.insert_constant(job_key, stored);
        let mut published = QueueStreamEvent::<R, P>::with_id(event_id);
        published.job_id = id;
        published.event = event;
        published.name = Some(String::from_str(name));
        if to_delay {
            published.delay = Some(delay);
        }
        if to_priorize {
            published.priority = Some(priority);
        }
        Ok(published)
    }

    /// Inserts `job` under `id` and gives the event to publish. Nothing changes
    /// where the job cannot be inserted.
    pub fn insert(
        &mut self,
        job: &mut Job<D, R, P>,
        opts: JobOptions,
        pc: u64,
        id: u64,
        name: &str,
        is_paused: bool,
    ) -> (event: KioResult<QueueStreamEvent<R, P>>)
        requires
            old(self).wf(),
            old(self)@.has_room(CollectionSuffix::Wait, false),
            old(self)@.has_room(CollectionSuffix::Paused, false),
        ensures
            final(self).wf(),
            exists|dt: Dt, ts: Dt| #[trigger]
                insert_outcome(
                    old(self)@,
                    *old(job),
                    opts,
                    pc,
                    id,
                    name@,
                    is_paused,
                    dt,
                    ts,
                    event,
                    final(self)@,
                    *final(job),
                ),
    {
        let dt = Dt::now();
        let ts = Dt::now();
        if opts.delay.checked_diff_ms(&dt).is_none() || opts.delay.checked_diff_ms(
            &job.ts,
        ).is_none() {
            let event = Err(
                KioError::CronerError(
                    CronError {
                        message: String::from_str("the schedule has no further occurrence"),
                    },
                ),
            );
            assert(insert_outcome(
                old(self)@,
                *old(job),
                opts,
                pc,
                id,
                name@,
                is_paused,
                dt,
                ts,
                event,
                self@,
                *job,
            ));
            return event;
        }
        let reached = match &opts.delay {
            JobDelay::TimeMilis(ms) => *ms <= 0 || ts.checked_add_millis(*ms).is_some(),
            JobDelay::FromCron(_) => true,
        };
        assert(reached == opts.delay.fits_calendar(ts@));
        let delay: u64 = opts.delay.as_diff_ms(&dt) as u64;
        if !reached || (delay == 0 && opts.priority > 0 && !priority_score_fits(
            opts.priority,
            pc,
        )) {
            let event = Err(
                KioError::GeneralError(
                    String::from_str("the delay or the priority is out of range"),
                ),
            );
            assert(insert_outcome(
                old(self)@,
                *old(job),
                opts,
                pc,
                id,
                name@,
                is_paused,
                dt,
                ts,
                event,
                self@,
                *job,
            ));
            return event;
        }
        let event = self.insert_at(
            job,
            opts,
            pc,
            id,
            name,
            is_paused,
            &dt,
            &ts,
            StreamEventId::default(),
        );
        assert(insert_outcome(
            old(self)@,
            *old(job),
            opts,
            pc,
            id,
            name@,
            is_paused,
            dt,
            ts,
            event,
            self@,
            *job,
        ));
        event
    }

    /// Adds a job with these data: gives it the next id, unless its options give
    /// it one, takes what it leaves open from the queue, and inserts it.
    pub fn add(
        &mut self,
        name: &str,
        opts: Option<JobOptions>,
        data: D,
        queue_opts: &QueueOpts,
        is_paused: bool,
    ) -> (result: KioResult<(Job<D, R, P>, QueueStreamEvent<R, P>)>)
        requires
            old(self).wf(),
            old(self)@.has_room(CollectionSuffix::Wait, false),
            old(self)@.has_room(CollectionSuffix::Paused, false),
        ensures
            final(self).wf(),
            exists|created: Dt, dt: Dt, ts: Dt, fresh: Job<D, R, P>| #[trigger]
                one_added(
                    old(self)@,
                    name@,
                    data,
                    effective_opts(*queue_opts, opts),
                    is_paused,
                    created,
                    dt,
                    ts,
                    fresh,
                    result,
                    final(self)@,
                ),
    {
        let mut opts = match opts {
            Some(opts) => opts,
            None => JobOptions::default(),
        };
        update_job_opts(queue_opts, &mut opts);
        let ghost effective = opts;
        let pc: u64 = if opts.priority > 0 {
            self.incr_at(CollectionSuffix::PriorityCounter, 1, None, 0)
        } else {
            0
        };
        let mut queue_name = self.prefix.clone();
        queue_name.append(":");
        queue_name.append(self.name.as_str());
        let next: u64 = self.incr_at(CollectionSuffix::Id, 1, None, 0);
        let id: u64 = id_for(&opts, next);
        let ghost counted = self@;
        let mut job = Job::<D, R, P>::new(name, Some(data), opts.id, Some(queue_name.as_str()));
        let ghost fresh = job;
        let outcome = self.insert(&mut job, opts, pc, id, name, is_paused);
        let ghost inserted_event = outcome;
        let ghost inserted_job = job;
        let result = match outcome {
            Ok(event) => Ok((job, event)),
            Err(error) => Err(error),
        };
        proof {
            assert(counted == counted_in(old(self)@, effective));
            assert(pc == next_priority_counter(old(self)@, effective));
            let (dt, ts) = choose|dt: Dt, ts: Dt| #[trigger]
                insert_outcome(
                    counted,
                    fresh,
                    effective,
                    pc,
                    id,
                    name@,
                    is_paused,
                    dt,
                    ts,
                    inserted_event,
                    self@,
                    inserted_job,
                );
            assert(one_added(
                old(self)@,
                name@,
                data,
                effective,
                is_paused,
                fresh.ts,
                dt,
                ts,
                fresh,
                result,
                self@,
            ));
        }
        result
    }

    /// Adds jobs one after the other until one cannot be added, and gives the
    /// jobs that were added, each with the event to publish.
    pub fn add_bulk(
        &mut self,
        items: Vec<(String, Option<JobOptions>, D)>,
        queue_opts: &QueueOpts,
        is_paused: bool,
    ) -> (outcome: (Vec<(Job<D, R, P>, QueueStreamEvent<R, P>)>, KioResult<()>))
        requires
            old(self).wf(),
            old(self)@.waiting.front_room >= items@.len(),
            old(self)@.paused.front_room >= items@.len(),
        ensures
            final(self).wf(),
            outcome.0@.len() <= items@.len(),
            outcome.1 is Ok ==> outcome.0@.len() == items@.len() && items_added(
                old(self)@,
                items@,
                *queue_opts,
                is_paused,
                outcome.0@,
                final(self)@,
            ),
            outcome.1 matches Err(error) ==> stopped_at(
                old(self)@,
                items@,
                *queue_opts,
                is_paused,
                outcome.0@,
                error,
                final(self)@,
            ),
    {
        let ghost all = items@;
        let ghost before = self@;
        let mut todo = items;
        let mut rest: Vec<(String, Option<JobOptions>, D)> = Vec::new();
        while todo.len() > 0
            invariant
                todo@ + rest@.reverse() =~= all,
            decreases todo.len(),
        {
            if let Some(item) = todo.pop() {
                rest.push(item);
            }
        }
        assert(rest@.reverse() =~= all);
        let mut added: Vec<(Job<D, R, P>, QueueStreamEvent<R, P>)> = Vec::new();
        while rest.len() > 0
            invariant
                self.wf(),
                all == items@,
                before == old(self)@,
                added@.len() + rest@.len() == all.len(),
                rest@ =~= all.skip(added@.len() as int).reverse(),
                self@.waiting.front_room >= rest@.len(),
                self@.paused.front_room >= rest@.len(),
                items_added(before, all, *queue_opts, is_paused, added@, self@),
            decreases rest.len(),
        {
            let ghost left = rest@;
            let ghost mid = self@;
            let ghost i = added@.len() as int;
            if let Some((name, opts, data)) = rest.pop() {
                proof {
                    assert(left[left.len() - 1] == all[i]);
                    assert(all[i] == (name, opts, data));
                }
                let result = self.add(name.as_str(), opts, data, queue_opts, is_paused);
                assert(item_handled(mid, all[i], *queue_opts, is_paused, result, self@));
                match result {
                    Ok((job, event)) => {
                        let ghost had = added@;
                        added.push((job, event));
                        proof {
                            assert(added@.drop_last() =~= had);
                            assert(item_handled(
                                mid,
                                all[added@.len() - 1],
                                *queue_opts,
                                is_paused,
                                Ok(added@.last()),
                                self@,
                            ));
                        }
                    },
                    Err(error) => {
                        assert(item_handled(
                            mid,
                            items@[added@.len() as int],
                            *queue_opts,
                            is_paused,
                            Err::<(Job<D, R, P>, QueueStreamEvent<R, P>), KioError>(error),
                            self@,
                        ));
                        assert(stopped_at(
                            old(self)@,
                            items@,
                            *queue_opts,
                            is_paused,
                            added@,
                            error,
                            self@,
                        ));
                        return (added, Err(error));
                    },
                }
            }
        }
        (added, Ok(()))
    }

    /// Adds jobs one after the other until one cannot be added, and gives the
    /// events to publish.
    pub fn add_bulk_only(
        &mut self,
        items: Vec<(String, Option<JobOptions>, D)>,
        queue_opts: &QueueOpts,
        is_paused: bool,
    ) -> (outcome: (Vec<QueueStreamEvent<R, P>>, KioResult<()>))
        requires
            old(self).wf(),
            old(self)@.waiting.front_room >= items@.len(),
            old(self)@.paused.front_room >= items@.len(),
        ensures
            final(self).wf(),
            outcome.1 is Ok ==> exists|added: Seq<(Job<D, R, P>, QueueStreamEvent<R, P>)>|
                events_of(added) == outcome.0@ && added.len() == items@.len()
                    && #[trigger] items_added(
                    old(self)@,
                    items@,
                    *queue_opts,
                    is_paused,
                    added,
                    final(self)@,
                ),
            outcome.1 matches Err(error) ==> exists|
                added: Seq<(Job<D, R, P>, QueueStreamEvent<R, P>)>,
            |
                events_of(added) == outcome.0@ && #[trigger] stopped_at(
                    old(self)@,
                    items@,
                    *queue_opts,
                    is_paused,
                    added,
                    error,
                    final(self)@,
                ),
    {
        let ghost all = items@;
        let (added, result) = self.add_bulk(items, queue_opts, is_paused);
        let ghost pairs = added@;
        let mut added = added;
        let mut reversed: Vec<QueueStreamEvent<R, P>> = Vec::new();
        while added.len() > 0
            invariant
                events_of(added@) + reversed@.reverse() =~= events_of(pairs),
                added@.len() + reversed@.len() == pairs.len(),
            decreases added.len(),
        {
            let ghost left = added@;
            if let Some((_, event)) = added.pop() {
                reversed.push(event);
                assert(events_of(left) =~= events_of(added@).push(event));
            }
        }
        let mut events: Vec<QueueStreamEvent<R, P>> = Vec::new();
        assert(reversed@.reverse() =~= events_of(pairs));
        while reversed.len() > 0
            invariant
                events@ + reversed@.reverse() =~= events_of(pairs),
            decreases reversed.len(),
        {
            if let Some(event) = reversed.pop() {
                events.push(event);
            }
        }
        assert(events@ =~= events_of(pairs));
        (events, result)
    }
}

/// The events of added jobs.
pub open spec fn events_of<D, R, P>(
    added: Seq<(Job<D, R, P>, QueueStreamEvent<R, P>)>,
) -> Seq<QueueStreamEvent<R, P>> {
    Seq::new(added.len(), |i: int| added[i].1)
}

} // verus!
