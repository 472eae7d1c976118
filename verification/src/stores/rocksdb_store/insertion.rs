//! Adding jobs: what a batch gathers and how it is stored.
use super::collections::{
    self, load_list_or_empty, load_scores_or_empty, store_list, store_scores,
};
use super::RocksDbStore;
use crate::error::{KioError, KioResult, QueueError};
use crate::events::{QueueStreamEvent, StreamEventId};
use crate::job::{CronError, Job, JobDelay, JobOptions, JobState};
use crate::outside::scored_ids;
use crate::queue::{CollectionSuffix, QueueOpts};
use crate::stores::inmemory_store::insertion::{self, id_for};
use crate::time::Dt;
use crate::utils::scheduling;
use crate::utils::scheduling::{
    calculate_next_priority_score, priority_score_fits, update_job_opts,
};
use crate::utils::sequences;
use crate::utils::sorted_set::SortedSet;
use crate::worker::MIN_DELAY_MS_LIMIT;
use vstd::prelude::*;

verus! {

/// What a batch has gathered.
#[verifier::ext_equal]
pub struct BatchState {
    /// Jobs for the waiting or the paused list.
    pub list: Seq<u64>,
    /// Jobs with a priority, by score.
    pub prioritized: Seq<(i128, u64)>,
    /// Delayed jobs, by the time they are due.
    pub delayed: Seq<(i128, u64)>,
}

/// Gathers the jobs that are added together.
pub struct Batch {
    list: Vec<u64>,
    prioritized: SortedSet,
    delayed: SortedSet,
}

impl View for Batch {
    type V = BatchState;

    closed spec fn view(&self) -> BatchState {
        BatchState {
            list: self.list@,
            prioritized: self.prioritized@,
            delayed: self.delayed@,
        }
    }
}

/// After job `id` was put where it belongs: a delayed one among the delayed
/// jobs, one with a priority among the prioritized ones, any other one at the
/// front of the list. A delay that leads to no point in time puts the job
/// nowhere.
pub open spec fn gathered(
    before: BatchState,
    opts: JobOptions,
    pc: u64,
    id: u64,
    dt: int,
    ts: int,
) -> BatchState {
    if insertion::delay_at(opts.delay, dt) > 0 {
        match opts.delay.next_millis(ts) {
            Some(at) => BatchState {
                delayed: scored_ids::scored(before.delayed, (at as i64) as i128, id),
                ..before
            },
            None => before,
        }
    } else if opts.priority > 0 {
        BatchState {
            prioritized: scored_ids::scored(
                before.prioritized,
                scheduling::priority_score(opts.priority, pc) as i128,
                id,
            ),
            ..before
        }
    } else {
        BatchState { list: seq![id] + before.list, ..before }
    }
}

/// Job `id` was gathered, or refused for its delay.
pub open spec fn job_gathered<D, R, P>(
    before: BatchState,
    job: Job<D, R, P>,
    opts: JobOptions,
    pc: u64,
    id: u64,
    name: Seq<char>,
    is_paused: bool,
    dt: int,
    ts: int,
    result: KioResult<QueueStreamEvent<R, P>>,
    after: BatchState,
    job_after: Job<D, R, P>,
) -> bool {
    let delay = insertion::delay_at(opts.delay, dt);
    if insertion::too_short(delay) {
        &&& result matches Err(KioError::QueueError(error))
        &&& error == QueueError::DelayBelowAllowedLimit {
            limit_ms: MIN_DELAY_MS_LIMIT,
            current_ms: delay,
        }
        &&& after == before
        &&& job_after == insertion::with_opts(job, opts)
    } else {
        &&& result matches Ok(event)
        &&& insertion::added_event(event, opts, id, name, is_paused, dt, ts)
        &&& job_after == Job {
            id: Some(id),
            state: insertion::placed_state(opts, dt, ts, job.state),
            ..insertion::with_opts(job, opts)
        }
        &&& after == gathered(before, opts, pc, id, dt, ts)
    }
}

/// A job was gathered at `dt` and `ts`, or refused for its delay, or it could
/// not be gathered and nothing changed.
pub open spec fn gather_outcome<D, R, P>(
    before: BatchState,
    job: Job<D, R, P>,
    opts: JobOptions,
    pc: u64,
    id: u64,
    name: Seq<char>,
    is_paused: bool,
    dt: Dt,
    ts: Dt,
    result: KioResult<QueueStreamEvent<R, P>>,
    after: BatchState,
    job_after: Job<D, R, P>,
) -> bool {
    ||| job_gathered(
        before,
        job,
        opts,
        pc,
        id,
        name,
        is_paused,
        dt@,
        ts@,
        result,
        after,
        job_after,
    )
    ||| {
        &&& result matches Err(error)
        &&& after == before
        &&& job_after == job
        &&& insertion::not_insertable(job.ts@, opts, pc, dt@, ts@, error)
    }
}

/// What is stored when a batch is submitted.
#[derive(Debug)]
pub struct Submission {
    /// The list that the jobs go to.
    pub next_list: CollectionSuffix,
    /// That list.
    pub list: Vec<u8>,
    /// The delayed jobs.
    pub delayed: Vec<u8>,
    /// The jobs with a priority.
    pub prioritized: Vec<u8>,
}

impl Batch {
    /// The gathered jobs are in order.
    pub closed spec fn wf(self) -> bool {
        self.prioritized.wf() && self.delayed.wf()
    }

    /// A batch without jobs.
    pub fn new() -> (batch: Self)
        ensures
            batch.wf(),
            batch@ == (BatchState {
                list: Seq::empty(),
                prioritized: Seq::empty(),
                delayed: Seq::empty(),
            }),
    {
        let batch = Batch {
            list: Vec::new(),
            prioritized: SortedSet::new(),
            delayed: SortedSet::new(),
        };
        assert(batch.list@ =~= Seq::empty());
        batch
    }

    /// Gathers `job` under `id`, looked at at `dt` and `ts`, and gives the event
    /// to publish. A delay that is too short is refused.
    pub fn prepare_for_insert_at<D, R, P>(
        &mut self,
        id: u64,
        pc: u64,
        is_paused: bool,
        job: &mut Job<D, R, P>,
        opts: JobOptions,
        name: &str,
        dt: &Dt,
        ts: &Dt,
        event_id: StreamEventId,
    ) -> (event: KioResult<QueueStreamEvent<R, P>>)
        requires
            old(self).wf(),
            opts.delay.diff_millis(dt@) is Some,
            opts.delay.diff_millis(old(job).ts@) is Some,
            opts.delay.fits_calendar(ts@),
            insertion::score_fits(opts, pc, dt@),
        ensures
            final(self).wf(),
            job_gathered(
                old(self)@,
                *old(job),
                opts,
                pc,
                id,
                name@,
                is_paused,
                dt@,
                ts@,
                event,
                final(self)@,
                *final(job),
            ),
            event matches Ok(event) ==> event.id == event_id,
    {
        let ghost given = opts;
        let ghost before = self@;
        let priority: u64 = opts.priority;
        let expected_dt_ts = opts.delay.next_occurrance_timestamp_ms_at(ts);
        let delay: u64 = opts.delay.as_diff_ms(dt) as u64;
        job.add_opts(opts);
        if delay > 0 && delay < MIN_DELAY_MS_LIMIT {
            return Err(
                KioError::QueueError(
                    QueueError::DelayBelowAllowedLimit {
                        limit_ms: MIN_DELAY_MS_LIMIT,
                        current_ms: delay,
                    },
                ),
            );
        }
        let mut event = if is_paused {
            JobState::Paused
        } else {
            JobState::Wait
        };
        let to_delay = delay > 0;
        let to_priorize = priority > 0 && !to_delay;
        if to_delay {
            if let Some(expected_active_time) = expected_dt_ts {
                self.delayed.insert(expected_active_time as i128, id);
                job.state = JobState::Delayed;
                event = JobState::Delayed;
            }
        } else if to_priorize {
            let score: u64 = calculate_next_priority_score(priority, pc);
            self.prioritized.insert(score as i128, id);
            job.state = JobState::Prioritized;
            event = JobState::Prioritized;
        } else {
            self.list.insert(0, id);
            assert(self.list@ =~= seq![id] + before.list);
        }
        assert(self@ == gathered(before, given, pc, id, dt@, ts@));
        job.id = Some(id);
        let mut published = QueueStreamEvent::<R, P>::with_id(event_id);
        published.job_id = id;
        published.event = event;
        published.name = Some(String::from_str(name));
        if to_delay {
            published.delay = Some(delay);
        }
        if to_priorize {
            published.priority = Some(priority);
        }
        Ok(published)
    }

    /// Gathers `job` under `id` and gives the event to publish. Nothing changes
    /// where the job cannot be gathered.
    pub fn prepare_for_insert<D, R, P>(
        &mut self,
        id: u64,
        pc: u64,
        is_paused: bool,
        job: &mut Job<D, R, P>,
        opts: JobOptions,
        name: &str,
    ) -> (event: KioResult<QueueStreamEvent<R, P>>)
        requires
            old(self).wf(),
        ensures
            final(self).wf(),
            exists|dt: Dt, ts: Dt| #[trigger]
                gather_outcome(
                    old(self)@,
                    *old(job),
                    opts,
                    pc,
                    id,
                    name@,
                    is_paused,
                    dt,
                    ts,
                    event,
                    final(self)@,
                    *final(job),
                ),
    {
        let ghost given = opts;
        let dt = Dt::now();
        let ts = Dt::now();
        let reached = match &opts.delay {
            JobDelay::TimeMilis(ms) => *ms <= 0 || ts.checked_add_millis(*ms).is_some(),
            JobDelay::FromCron(_) => true,
        };
        assert(reached == opts.delay.fits_calendar(ts@));
        let known = opts.delay.checked_diff_ms(&dt).is_some() && opts.delay.checked_diff_ms(
            &job.ts,
        ).is_some();
        let delay: u64 = if known {
            opts.delay.as_diff_ms(&dt) as u64
        } else {
            0
        };
        let event = if !known {
            Err(
                KioError::CronerError(
                    CronError {
                        message: String::from_str("the schedule has no further occurrence"),
                    },
                ),
            )
        } else if !reached || (delay == 0 && opts.priority > 0 && !priority_score_fits(
            opts.priority,
            pc,
        )) {
            Err(
                KioError::GeneralError(
                    String::from_str("the delay or the priority is out of range"),
                ),
            )
        } else {
            self.prepare_for_insert_at(
                id,
                pc,
                is_paused,
                job,
                opts,
                name,
                &dt,
                &ts,
                StreamEventId::default(),
            )
        };
        assert(gather_outcome(
            old(self)@,
            *old(job),
            given,
            pc,
            id,
            name@,
            is_paused,
            dt,
            ts,
            event,
            self@,
            *job,
        ));
        event
    }

    /// What is stored when the batch is submitted: its list in front of the
    /// stored one, and its other jobs among the stored ones.
    pub fn submit_changes(
        self,
        is_paused: bool,
        stored_list: Option<Vec<u8>>,
        stored_prioritized: Option<Vec<u8>>,
        stored_delayed: Option<Vec<u8>>,
    ) -> (submission: KioResult<Submission>)
        requires
            self.wf(),
        ensures
            submission matches Ok(submission) && {
                &&& submission.next_list == if is_paused {
                    CollectionSuffix::Paused
                } else {
                    CollectionSuffix::Wait
                }
                &&& collections::holds_list(
                    submission.list@,
                    self@.list + collections::list_in(stored_list),
                )
                &&& collections::holds_entries(
                    submission.prioritized@,
                    sequences::all_scored(
                        collections::entries_in(stored_prioritized),
                        self@.prioritized,
                    ),
                )
                &&& collections::holds_entries(
                    submission.delayed@,
                    sequences::all_scored(collections::entries_in(stored_delayed), self@.delayed),
                )
            },
    {
        let next_list = if is_paused {
            CollectionSuffix::Paused
        } else {
            CollectionSuffix::Wait
        };
        let ghost own = self.list@;
        let mut list = self.list;
        let mut queue = load_list_or_empty(stored_list);
        let ghost tail = queue@;
        list.append(&mut queue);
        assert(list@ =~= own + tail);
        let mut prioritized = load_scores_or_empty(stored_prioritized);
        prioritized.extend(&self.prioritized.entries());
        let mut delayed = load_scores_or_empty(stored_delayed);
        delayed.extend(&self.delayed.entries());
        Ok(
            Submission {
                next_list,
                list: store_list(&list)?,
                delayed: store_scores(&delayed)?,
                prioritized: store_scores(&prioritized)?,
            },
        )
    }
}

/// The last id and the last priority counter that a queue has given out.
#[derive(Debug, Clone, Copy, PartialEq, Eq, Structural)]
pub struct Counters {
    /// The last job id.
    pub id: u64,
    /// The last priority counter.
    pub priority: u64,
}

/// The counters after one more job; nothing where one of them is used up.
pub open spec fn counted(before: Counters, opts: JobOptions) -> Option<Counters> {
    if before.id == u64::MAX || (opts.priority > 0 && before.priority == u64::MAX) {
        None
    } else {
        Some(
            Counters {
                id: (before.id + 1) as u64,
                priority: if opts.priority > 0 {
                    (before.priority + 1) as u64
                } else {
                    before.priority
                },
            },
        )
    }
}

/// The counters after one more job.
fn count(before: Counters, opts: &JobOptions) -> (after: Option<Counters>)
    ensures
        after == counted(before, *opts),
{
    if before.id == u64::MAX || (opts.priority > 0 && before.priority == u64::MAX) {
        return None;
    }
    let priority: u64 = if opts.priority > 0 {
        before.priority + 1
    } else {
        before.priority
    };
    Some(Counters { id: before.id + 1, priority })
}

/// The priority counter of a job that was counted: zero for one without a
/// priority.
pub open spec fn priority_counter(counters: Counters, opts: JobOptions) -> u64 {
    if opts.priority > 0 {
        counters.priority
    } else {
        0
    }
}

/// A job was gathered at some time, or not. The counters count either way,
/// unless one of them is used up: then nothing changes.
pub open spec fn one_gathered<D, R, P>(
    before: BatchState,
    counters: Counters,
    name: Seq<char>,
    data: D,
    opts: JobOptions,
    queue_name: Seq<char>,
    is_paused: bool,
    created: Dt,
    dt: Dt,
    ts: Dt,
    fresh: Job<D, R, P>,
    result: KioResult<(Job<D, R, P>, QueueStreamEvent<R, P>)>,
    after: BatchState,
    counters_after: Counters,
) -> bool {
    match counted(counters, opts) {
        None => {
            &&& result matches Err(error) && error is GeneralError
            &&& after == before
            &&& counters_after == counters
        },
        Some(next) => {
            let pc = priority_counter(next, opts);
            let id = insertion::given_id(opts, next.id);
            &&& counters_after == next
            &&& fresh.is_new(created, name, Some(data), opts.id, Some(queue_name))
            &&& match result {
                Ok((job, event)) => gather_outcome(
                    before,
                    fresh,
                    opts,
                    pc,
                    id,
                    name,
                    is_paused,
                    dt,
                    ts,
                    Ok(event),
                    after,
                    job,
                ),
                Err(error) => exists|job: Job<D, R, P>| #[trigger]
                    gather_outcome(
                        before,
                        fresh,
                        opts,
                        pc,
                        id,
                        name,
                        is_paused,
                        dt,
                        ts,
                        Err::<QueueStreamEvent<R, P>, KioError>(error),
                        after,
                        job,
                    ),
            }
        },
    }
}

/// One item of a bulk: the job was gathered, or not, at some time.
pub open spec fn item_handled<D, R, P>(
    before: (BatchState, Counters),
    item: (String, Option<JobOptions>, D),
    queue_opts: QueueOpts,
    queue_name: Seq<char>,
    is_paused: bool,
    result: KioResult<(Job<D, R, P>, QueueStreamEvent<R, P>)>,
    after: (BatchState, Counters),
) -> bool {
    exists|created: Dt, dt: Dt, ts: Dt, fresh: Job<D, R, P>| #[trigger]
        one_gathered(
            before.0,
            before.1,
            item.0@,
            item.2,
            insertion::effective_opts(queue_opts, item.1),
            queue_name,
            is_paused,
            created,
            dt,
            ts,
            fresh,
            result,
            after.0,
            after.1,
        )
}

/// The first items of a bulk, as many as there are in `added`, were gathered one
/// after the other.
pub open spec fn items_gathered<D, R, P>(
    before: (BatchState, Counters),
    items: Seq<(String, Option<JobOptions>, D)>,
    queue_opts: QueueOpts,
    queue_name: Seq<char>,
    is_paused: bool,
    added: Seq<(Job<D, R, P>, QueueStreamEvent<R, P>)>,
    after: (BatchState, Counters),
) -> bool
    decreases added.len(),
{
    if added.len() == 0 {
        after == before
    } else {
        exists|mid: (BatchState, Counters)|
            items_gathered(
                before,
                items,
                queue_opts,
                queue_name,
                is_paused,
                added.drop_last(),
                mid,
            ) && #[trigger] item_handled(
                mid,
                items[added.len() - 1],
                queue_opts,
                queue_name,
                is_paused,
                Ok(added.last()),
                after,
            )
    }
}

/// The first items of a bulk were gathered, and the one behind them could not be.
pub open spec fn stopped_at<D, R, P>(
    before: (BatchState, Counters),
    items: Seq<(String, Option<JobOptions>, D)>,
    queue_opts: QueueOpts,
    queue_name: Seq<char>,
    is_paused: bool,
    added: Seq<(Job<D, R, P>, QueueStreamEvent<R, P>)>,
    error: KioError,
    after: (BatchState, Counters),
) -> bool {
    &&& added.len() < items.len()
    &&& exists|mid: (BatchState, Counters)|
        items_gathered(before, items, queue_opts, queue_name, is_paused, added, mid)
            && #[trigger] item_handled(
            mid,
            items[added.len() as int],
            queue_opts,
            queue_name,
            is_paused,
            Err::<(Job<D, R, P>, QueueStreamEvent<R, P>), KioError>(error),
            after,
        )
}

impl RocksDbStore {
    /// The name that the jobs of the queue carry.
    pub open spec fn job_queue_name(self) -> Seq<char> {
        self@.prefix + ":"@ + self@.name
    }

    /// Adds a job with these data to a batch: gives it the next id, unless its
    /// options give it one, takes what it leaves open from the queue, and gathers
    /// it.
    pub fn add<D, R, P>(
        &self,
        batch: &mut Batch,
        counters: &mut Counters,
        name: &str,
        opts: Option<JobOptions>,
        data: D,
        queue_opts: &QueueOpts,
        is_paused: bool,
    ) -> (result: KioResult<(Job<D, R, P>, QueueStreamEvent<R, P>)>)
        requires
            old(batch).wf(),
        ensures
            final(batch).wf(),
            exists|created: Dt, dt: Dt, ts: Dt, fresh: Job<D, R, P>| #[trigger]
                one_gathered(
                    old(batch)@,
                    *old(counters),
                    name@,
                    data,
                    insertion::effective_opts(*queue_opts, opts),
                    self.job_queue_name(),
                    is_paused,
                    created,
                    dt,
                    ts,
                    fresh,
                    result,
                    final(batch)@,
                    *final(counters),
                ),
    {
        let mut opts = match opts {
            Some(opts) => opts,
            None => JobOptions::default(),
        };
        update_job_opts(queue_opts, &mut opts);
        let ghost effective = opts;
        let ghost before = batch@;
        let mut queue_name = self.prefix.clone();
        queue_name.append(":");
        queue_name.append(self.name.as_str());
        let mut job = Job::<D, R, P>::new(name, Some(data), opts.id, Some(queue_name.as_str()));
        let ghost fresh = job;
        let next = match count(*counters, &opts) {
            Some(next) => next,
            None => {
                let result = Err(
                    KioError::GeneralError(String::from_str("the counter overflows")),
                );
                assert(one_gathered(
                    before,
                    *old(counters),
                    name@,
                    data,
                    effective,
                    self.job_queue_name(),
                    is_paused,
                    fresh.ts,
                    fresh.ts,
                    fresh.ts,
                    fresh,
                    result,
                    batch@,
                    *counters,
                ));
                return result;
            },
        };
        *counters = next;
        let pc: u64 = if opts.priority > 0 {
            next.priority
        } else {
            0
        };
        let id: u64 = id_for(&opts, next.id);
        let outcome = batch.prepare_for_insert(id, pc, is_paused, &mut job, opts, name);
        let ghost event = outcome;
        let ghost gathered_job = job;
        let result = match outcome {
            Ok(event) => Ok((job, event)),
            Err(error) => Err(error),
        };
        proof {
            let (dt, ts) = choose|dt: Dt, ts: Dt| #[trigger]
                gather_outcome(
                    before,
                    fresh,
                    effective,
                    pc,
                    id,
                    name@,
                    is_paused,
                    dt,
                    ts,
                    event,
                    batch@,
                    gathered_job,
                );
            assert(counted(*old(counters), effective) == Some(next));
            assert(pc == priority_counter(next, effective));
            assert(fresh.is_new(
                fresh.ts,
                name@,
                Some(data),
                effective.id,
                Some(self.job_queue_name()),
            ));
            assert(one_gathered(
                before,
                *old(counters),
                name@,
                data,
                effective,
                self.job_queue_name(),
                is_paused,
                fresh.ts,
                dt,
                ts,
                fresh,
                result,
                batch@,
                *counters,
            ));
        }
        result
    }

    /// Adds jobs to a batch one after the other until one cannot be added, and
    /// gives the jobs that were added, each with the event to publish.
    pub fn add_bulk<D, R, P>(
        &self,
        batch: &mut Batch,
        counters: &mut Counters,
        items: Vec<(String, Option<JobOptions>, D)>,
        queue_opts: &QueueOpts,
        is_paused: bool,
    ) -> (outcome: (Vec<(Job<D, R, P>, QueueStreamEvent<R, P>)>, KioResult<()>))
        requires
            old(batch).wf(),
        ensures
            final(batch).wf(),
            outcome.1 is Ok ==> outcome.0@.len() == items@.len() && items_gathered(
                (old(batch)@, *old(counters)),
                items@,
                *queue_opts,
                self.job_queue_name(),
                is_paused,
                outcome.0@,
                (final(batch)@, *final(counters)),
            ),
            outcome.1 matches Err(error) ==> stopped_at(
                (old(batch)@, *old(counters)),
                items@,
                *queue_opts,
                self.job_queue_name(),
                is_paused,
                outcome.0@,
                error,
                (final(batch)@, *final(counters)),
            ),
    {
        let ghost all = items@;
        let ghost before = (batch@, *counters);
        let mut todo = items;
        let mut rest: Vec<(String, Option<JobOptions>, D)> = Vec::new();
        while todo.len() > 0
            invariant
                todo@ + rest@.reverse() =~= all,
            decreases todo.len(),
        {
            if let Some(item) = todo.pop() {
                rest.push(item);
            }
        }
        assert(rest@.reverse() =~= all);
        let mut added: Vec<(Job<D, R, P>, QueueStreamEvent<R, P>)> = Vec::new();
        while rest.len() > 0
            invariant
                batch.wf(),
                all == items@,
                before == (old(batch)@, *old(counters)),
                added@.len() + rest@.len() == all.len(),
                rest@ =~= all.skip(added@.len() as int).reverse(),
                items_gathered(
                    before,
                    all,
                    *queue_opts,
                    self.job_queue_name(),
                    is_paused,
                    added@,
                    (batch@, *counters),
                ),
            decreases rest.len(),
        {
            let ghost left = rest@;
            let ghost mid = (batch@, *counters);
            let ghost i = added@.len() as int;
            if let Some((name, opts, data)) = rest.pop() {
                proof {
                    assert(left[left.len() - 1] == all[i]);
                    assert(all[i] == (name, opts, data));
                }
                let result = self.add(
                    batch,
                    counters,
                    name.as_str(),
                    opts,
                    data,
                    queue_opts,
                    is_paused,
                );
                proof {
                    let after = (batch@, *counters);
                    let effective = insertion::effective_opts(*queue_opts, all[i].1);
                    let (created, dt, ts, fresh) = choose|
                        created: Dt,
                        dt: Dt,
                        ts: Dt,
                        fresh: Job<D, R, P>,
                    | #[trigger]
                        one_gathered(
                            mid.0,
                            mid.1,
                            all[i].0@,
                            all[i].2,
                            effective,
                            self.job_queue_name(),
                            is_paused,
                            created,
                            dt,
                            ts,
                            fresh,
                            result,
                            after.0,
                            after.1,
                        );
                    assert(one_gathered(
                        mid.0,
                        mid.1,
                        all[i].0@,
                        all[i].2,
                        effective,
                        self.job_queue_name(),
                        is_paused,
                        created,
                        dt,
                        ts,
                        fresh,
                        result,
                        after.0,
                        after.1,
                    ));
                    assert(item_handled(
                        mid,
                        all[i],
                        *queue_opts,
                        self.job_queue_name(),
                        is_paused,
                        result,
                        after,
                    ));
                }
                match result {
                    Ok((job, event)) => {
                        let ghost had = added@;
                        added.push((job, event));
                        proof {
                            assert(added@.drop_last() =~= had);
                            assert(item_handled(
                                mid,
                                all[added@.len() - 1],
                                *queue_opts,
                                self.job_queue_name(),
                                is_paused,
                                Ok(added@.last()),
                                (batch@, *counters),
                            ));
                        }
                    },
                    Err(error) => {
                        assert(item_handled(
                            mid,
                            items@[added@.len() as int],
                            *queue_opts,
                            self.job_queue_name(),
                            is_paused,
                            Err::<(Job<D, R, P>, QueueStreamEvent<R, P>), KioError>(error),
                            (batch@, *counters),
                        ));
                        return (added, Err(error));
                    },
                }
            }
        }
        (added, Ok(()))
    }
}

} // verus!
