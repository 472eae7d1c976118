//! The timers of a queue and what is done when one fires.
use crate::events::parameters::{self, millis_span};
use crate::job::JobToken;
use crate::metrics::worker_metrics::TaskInfo;
use crate::metrics::WorkerMetrics;
use crate::metrics::WORKER_STATE_TTL_MS;
use crate::time::{Dt, TimeSpan};
use crate::utils::sequences;
use crate::worker::{WorkerOpts, WorkerState, MIN_DELAY_MS_LIMIT};
use vstd::prelude::*;

verus! {

/// What a timer is for.
#[derive(Debug, Clone, Copy, PartialEq, Eq, Structural)]
pub enum TimerType {
    /// Look for stalled jobs, every so often.
    StalledCheck(TimeSpan),
    /// Extend held locks, every so often.
    ExtendLock(TimeSpan),
    /// Let a delayed job of a queue wait.
    PromotedDelayed(u64, u128),
    /// Collect metrics, every so often.
    CollectMetrics(TimeSpan),
    /// Report that the workers are there.
    ReregisterWorker,
}

impl TimerType {
    /// The time after which the timer fires.
    pub open spec fn duration(self) -> TimeSpan {
        match self {
            TimerType::StalledCheck(duration) => duration,
            TimerType::ExtendLock(duration) => duration,
            TimerType::CollectMetrics(duration) => duration,
            TimerType::PromotedDelayed(_, _) => parameters::span_of_millis(MIN_DELAY_MS_LIMIT),
            TimerType::ReregisterWorker => parameters::span_of_millis(WORKER_STATE_TTL_MS),
        }
    }

    /// The time after which the timer fires.
    pub fn next_duration(&self) -> (duration: TimeSpan)
        ensures
            duration == self.duration(),
    {
        match self {
            TimerType::StalledCheck(duration) => *duration,
            TimerType::ExtendLock(duration) => *duration,
            TimerType::CollectMetrics(duration) => *duration,
            TimerType::PromotedDelayed(_, _) => millis_span(MIN_DELAY_MS_LIMIT),
            TimerType::ReregisterWorker => millis_span(WORKER_STATE_TTL_MS),
        }
    }
}

/// A worker of a queue.
#[derive(Debug, Clone, Copy, PartialEq, Eq, Structural)]
pub struct WorkerEntry {
    /// The worker.
    pub id: u128,
    /// Its state.
    pub state: WorkerState,
    /// Its options.
    pub opts: WorkerOpts,
}

/// A job that a worker is processing.
#[derive(Debug, Clone, Copy, PartialEq, Eq, Structural)]
pub struct JobEntry {
    /// The job's id.
    pub id: Option<u64>,
    /// The token of its lock; the first part names the worker.
    pub token: JobToken,
    /// Options of the worker.
    pub opts: WorkerOpts,
}

/// A lock that is extended.
#[derive(Debug, Clone, Copy, PartialEq, Eq, Structural)]
pub struct LockExtension {
    /// The job.
    pub job_id: u64,
    /// For how many milliseconds.
    pub lock_duration: u64,
    /// The token of the lock.
    pub token: JobToken,
}

/// What is done when a timer fires.
#[derive(Debug)]
pub enum TimerWork {
    /// Look for stalled jobs, with the options of the first worker that looks
    /// this often; not at all without one.
    CheckStalled(Option<WorkerOpts>),
    /// Extend these locks.
    ExtendLocks(Vec<LockExtension>),
    /// Collect the metrics of the jobs at these positions.
    Collect(Vec<usize>),
    /// Let this job wait.
    Promote(u64),
    /// Report that these workers are there.
    Heartbeat(Vec<u128>),
}

/// Holds of workers that look for stalled jobs this often.
pub open spec fn checks_every(duration: TimeSpan) -> spec_fn(WorkerEntry) -> bool {
    |worker: WorkerEntry| parameters::span_of_millis(worker.opts.stalled_interval) == duration
}

/// Holds of workers that extend their locks this often.
pub open spec fn renews_every(duration: TimeSpan) -> spec_fn(WorkerEntry) -> bool {
    |worker: WorkerEntry| parameters::span_of_millis(worker.opts.renew_interval()) == duration
}

/// Holds of workers that are there.
pub open spec fn is_there() -> spec_fn(WorkerEntry) -> bool {
    |worker: WorkerEntry| worker.state != WorkerState::Closed
}

/// Holds of jobs with an id whose worker extends its locks this often.
pub open spec fn is_extended(workers: Seq<WorkerEntry>, duration: TimeSpan) -> spec_fn(
    JobEntry,
) -> bool {
    |job: JobEntry|
        job.id is Some && exists|i: int|
            0 <= i < workers.len() && (#[trigger] workers[i]).id == job.token.0 && renews_every(
                duration,
            )(workers[i])
}

/// The extension of a job's lock.
pub open spec fn extension_of(job: JobEntry) -> LockExtension {
    LockExtension {
        job_id: job.id->0,
        lock_duration: job.opts.lock_duration,
        token: job.token,
    }
}

/// `extensions` are those of `jobs`, one for one.
pub open spec fn extends(jobs: Seq<JobEntry>, extensions: Seq<LockExtension>) -> bool {
    extensions.len() == jobs.len() && forall|i: int|
        0 <= i < jobs.len() ==> #[trigger] extensions[i] == extension_of(jobs[i])
}

/// Whether the job at a position is collected this often.
pub open spec fn is_collected(jobs: Seq<JobEntry>, duration: TimeSpan) -> spec_fn(usize) -> bool {
    |i: usize|
        parameters::span_of_millis(jobs[i as int].opts.metrics_update_interval) == duration
}

/// The positions below `n`.
pub open spec fn positions(n: nat) -> Seq<usize> {
    Seq::new(n, |i: int| i as usize)
}

/// The ids of workers.
pub open spec fn ids_of(workers: Seq<WorkerEntry>) -> Seq<u128> {
    Seq::new(workers.len(), |i: int| workers[i].id)
}

/// The first of `workers`, where there is one.
pub open spec fn first_opts(workers: Seq<WorkerEntry>) -> Option<WorkerOpts> {
    if workers.len() == 0 {
        None
    } else {
        Some(workers[0].opts)
    }
}

/// `work` is what is done when `timer` fires.
pub open spec fn is_work_of(
    timer: TimerType,
    workers: Seq<WorkerEntry>,
    jobs: Seq<JobEntry>,
    work: TimerWork,
) -> bool {
    match timer {
        TimerType::StalledCheck(duration) => work == TimerWork::CheckStalled(
            first_opts(workers.filter(checks_every(duration))),
        ),
        TimerType::ExtendLock(duration) => work matches TimerWork::ExtendLocks(extensions)
            && extends(jobs.filter(is_extended(workers, duration)), extensions@),
        TimerType::CollectMetrics(duration) => work matches TimerWork::Collect(chosen) && chosen@
            == positions(jobs.len()).filter(is_collected(jobs, duration)),
        TimerType::PromotedDelayed(job_id, _) => work == TimerWork::Promote(job_id),
        TimerType::ReregisterWorker => work matches TimerWork::Heartbeat(ids) && ids@ == ids_of(
            workers.filter(is_there()),
        ),
    }
}

/// The timer that is set again after `timer` fired: all but the promotion of
/// one job.
pub open spec fn set_again(timer: TimerType) -> Option<TimerType> {
    match timer {
        TimerType::PromotedDelayed(_, _) => None,
        _ => Some(timer),
    }
}

/// The options of the first worker that looks for stalled jobs this often.
fn stalled_check_opts(workers: &Vec<WorkerEntry>, duration: TimeSpan) -> (opts: Option<WorkerOpts>)
    ensures
        opts == first_opts(workers@.filter(checks_every(duration))),
{
    let ghost keep = checks_every(duration);
    let mut i: usize = 0;
    while i < workers.len()
        invariant
            i <= workers.len(),
            keep == checks_every(duration),
            forall|j: int| 0 <= j < i ==> !keep(#[trigger] workers@[j]),
        decreases workers.len() - i,
    {
        if millis_span(workers[i].opts.stalled_interval) == duration {
            proof {
                let before = workers@.take(i as int);
                let rest = workers@.skip(i as int);
                assert(workers@ =~= before + rest);
                Seq::filter_distributes_over_add(before, rest, keep);
                sequences::lemma_filter_none(before, keep);
                assert(rest =~= seq![workers@[i as int]] + rest.skip(1));
                Seq::filter_distributes_over_add(seq![workers@[i as int]], rest.skip(1), keep);
                sequences::lemma_filter_all(seq![workers@[i as int]], keep);
                assert(workers@.filter(keep)[0] == workers@[i as int]);
            }
            return Some(workers[i].opts);
        }
        i += 1;
    }
    proof {
        sequences::lemma_filter_none(workers@, keep);
    }
    None
}

/// Whether the worker `id` extends its locks this often.
fn renews(workers: &Vec<WorkerEntry>, id: u128, duration: TimeSpan) -> (found: bool)
    ensures
        found == exists|i: int|
            0 <= i < workers@.len() && (#[trigger] workers@[i]).id == id && renews_every(duration)(
                workers@[i],
            ),
{
    let mut i: usize = 0;
    while i < workers.len()
        invariant
            i <= workers.len(),
            forall|j: int|
                0 <= j < i ==> !((#[trigger] workers@[j]).id == id && renews_every(duration)(
                    workers@[j],
                )),
        decreases workers.len() - i,
    {
        if workers[i].id == id && millis_span(workers[i].opts.lock_renew_interval()) == duration {
            assert(renews_every(duration)(workers@[i as int]));
            return true;
        }
        i += 1;
    }
    false
}

/// The locks that are extended this often.
fn lock_extensions(workers: &Vec<WorkerEntry>, jobs: &Vec<JobEntry>, duration: TimeSpan) -> (found:
    Vec<LockExtension>)
    ensures
        extends(jobs@.filter(is_extended(workers@, duration)), found@),
{
    let ghost keep = is_extended(workers@, duration);
    let mut found: Vec<LockExtension> = Vec::new();
    let mut i: usize = 0;
    proof {
        reveal(Seq::filter);
        assert(jobs@.take(0) =~= Seq::empty());
    }
    while i < jobs.len()
        invariant
            i <= jobs.len(),
            keep == is_extended(workers@, duration),
            extends(jobs@.take(i as int).filter(keep), found@),
        decreases jobs.len() - i,
    {
        let job = jobs[i];
        let ghost had = found@;
        proof {
            sequences::lemma_filter_step(jobs@, i as int, keep);
        }
        if let Some(id) = job.id {
            if renews(workers, job.token.0, duration) {
                assert(keep(job));
                found.push(
                    LockExtension {
                        job_id: id,
                        lock_duration: job.opts.lock_duration,
                        token: job.token,
                    },
                );
            }
        }
        i += 1;
        proof {
            let kept = jobs@.take(i as int).filter(keep);
            assert forall|j: int| 0 <= j < kept.len() implies #[trigger] found@[j] == extension_of(
                kept[j],
            ) by {
                if j < had.len() {
                    assert(found@[j] == had[j]);
                }
            }
        }
    }
    assert(jobs@.take(jobs@.len() as int) =~= jobs@);
    found
}

/// The positions of the jobs whose metrics are collected this often.
fn collected(jobs: &Vec<JobEntry>, duration: TimeSpan) -> (found: Vec<usize>)
    ensures
        found@ == positions(jobs@.len()).filter(is_collected(jobs@, duration)),
{
    let ghost keep = is_collected(jobs@, duration);
    let ghost all = positions(jobs@.len());
    let mut found: Vec<usize> = Vec::new();
    let mut i: usize = 0;
    proof {
        reveal(Seq::filter);
        assert(all.take(0) =~= Seq::empty());
    }
    while i < jobs.len()
        invariant
            i <= jobs.len(),
            keep == is_collected(jobs@, duration),
            all == positions(jobs@.len()),
            found@ == all.take(i as int).filter(keep),
        decreases jobs.len() - i,
    {
        proof {
            sequences::lemma_filter_step(all, i as int, keep);
            assert(all[i as int] == i);
        }
        if millis_span(jobs[i].opts.metrics_update_interval) == duration {
            found.push(i);
        }
        i += 1;
    }
    assert(all.take(jobs@.len() as int) =~= all);
    found
}

/// The workers that are there.
fn present(workers: &Vec<WorkerEntry>) -> (ids: Vec<u128>)
    ensures
        ids@ == ids_of(workers@.filter(is_there())),
{
    let ghost keep = is_there();
    let mut ids: Vec<u128> = Vec::new();
    let mut i: usize = 0;
    proof {
        reveal(Seq::filter);
        assert(workers@.take(0) =~= Seq::empty());
        assert(ids@ =~= ids_of(workers@.take(0).filter(keep)));
    }
    while i < workers.len()
        invariant
            i <= workers.len(),
            keep == is_there(),
            ids@ == ids_of(workers@.take(i as int).filter(keep)),
        decreases workers.len() - i,
    {
        let ghost before = workers@.take(i as int).filter(keep);
        proof {
            sequences::lemma_filter_step(workers@, i as int, keep);
        }
        if workers[i].state != WorkerState::Closed {
            ids.push(workers[i].id);
            assert(ids@ =~= ids_of(before.push(workers@[i as int])));
        }
        i += 1;
    }
    assert(workers@.take(workers@.len() as int) =~= workers@);
    ids
}

/// What is done when `key` fires, and the timer that is set again. `workers`
/// are those of the queue, `jobs` those that are being processed.
pub fn process_timer(key: TimerType, workers: &Vec<WorkerEntry>, jobs: &Vec<JobEntry>) -> (step: (
    TimerWork,
    Option<TimerType>,
))
    ensures
        is_work_of(key, workers@, jobs@, step.0),
        step.1 == set_again(key),
{
    match key {
        TimerType::StalledCheck(duration) => (
            TimerWork::CheckStalled(stalled_check_opts(workers, duration)),
            Some(key),
        ),
        TimerType::ExtendLock(duration) => (
            TimerWork::ExtendLocks(lock_extensions(workers, jobs, duration)),
            Some(key),
        ),
        TimerType::CollectMetrics(duration) => (
            TimerWork::Collect(collected(jobs, duration)),
            Some(key),
        ),
        TimerType::PromotedDelayed(job_id, _) => (TimerWork::Promote(job_id), None),
        TimerType::ReregisterWorker => (TimerWork::Heartbeat(present(workers)), Some(key)),
    }
}

/// The timers of a worker: extension of locks, check for stalled jobs,
/// collection of metrics, and the report that it is there.
pub open spec fn timers_of(opts: WorkerOpts) -> Seq<TimerType> {
    seq![
        TimerType::ExtendLock(parameters::span_of_millis(opts.renew_interval())),
        TimerType::StalledCheck(parameters::span_of_millis(opts.stalled_interval)),
        TimerType::CollectMetrics(parameters::span_of_millis(opts.metrics_update_interval)),
        TimerType::ReregisterWorker,
    ]
}

/// Whatever a timer of a worker does when it fires, it does for this worker: the
/// lock of each of its jobs is extended, the metrics of each are collected, someone
/// looks for stalled jobs, and the worker is reported while it is there. Each of the
/// timers is set again.
pub proof fn law_timers_serve_their_worker(
    workers: Seq<WorkerEntry>,
    jobs: Seq<JobEntry>,
    i: int,
    k: int,
    work: TimerWork,
)
    requires
        0 <= i < workers.len(),
        0 <= k < jobs.len() <= usize::MAX,
        jobs[k].id is Some,
        jobs[k].token.0 == workers[i].id,
        jobs[k].opts == workers[i].opts,
    ensures
        ({
            let timers = timers_of(workers[i].opts);
            &&& is_work_of(timers[0], workers, jobs, work) ==> (work matches TimerWork::ExtendLocks(
                extensions,
            ) && extensions@.contains(extension_of(jobs[k])))
            &&& is_work_of(timers[1], workers, jobs, work) ==> (work matches TimerWork::CheckStalled(
                opts,
            ) && opts is Some)
            &&& is_work_of(timers[2], workers, jobs, work) ==> (work matches TimerWork::Collect(
                chosen,
            ) && chosen@.contains(k as usize))
            &&& is_work_of(timers[3], workers, jobs, work) && workers[i].state
                != WorkerState::Closed ==> (work matches TimerWork::Heartbeat(ids) && ids@.contains(
                workers[i].id,
            ))
            &&& forall|t: int|
                0 <= t < timers.len() ==> set_again(#[trigger] timers[t]) == Some(timers[t])
        }),
{
    let opts = workers[i].opts;
    let renewed = parameters::span_of_millis(opts.renew_interval());
    let checked = parameters::span_of_millis(opts.stalled_interval);
    let collected = parameters::span_of_millis(opts.metrics_update_interval);
    let extended = jobs.filter(is_extended(workers, renewed));
    assert(renews_every(renewed)(workers[i]));
    assert(is_extended(workers, renewed)(jobs[k]));
    assert(extended.contains(jobs[k]));
    let e = choose|e: int| 0 <= e < extended.len() && extended[e] == jobs[k];
    assert(checks_every(checked)(workers[i]));
    assert(workers.filter(checks_every(checked)).contains(workers[i]));
    let all = positions(jobs.len());
    assert(all[k] == k as usize);
    assert(is_collected(jobs, collected)(all[k]));
    assert(all.filter(is_collected(jobs, collected)).contains(all[k]));
    let there = workers.filter(is_there());
    if workers[i].state != WorkerState::Closed {
        assert(is_there()(workers[i]));
        assert(there.contains(workers[i]));
        let w = choose|w: int| 0 <= w < there.len() && there[w] == workers[i];
        assert(ids_of(there)[w] == workers[i].id);
    }
    if let TimerWork::ExtendLocks(extensions) = work {
        if extends(extended, extensions@) {
            assert(extensions@[e] == extension_of(jobs[k]));
        }
    }
}

/// The timers of a worker.
pub fn register_worker_timers(opts: &WorkerOpts) -> (timers: Vec<TimerType>)
    ensures
        timers@ == timers_of(*opts),
{
    let mut timers: Vec<TimerType> = Vec::new();
    timers.push(TimerType::ExtendLock(millis_span(opts.lock_renew_interval())));
    timers.push(TimerType::StalledCheck(millis_span(opts.stalled_interval)));
    timers.push(TimerType::CollectMetrics(millis_span(opts.metrics_update_interval)));
    timers.push(TimerType::ReregisterWorker);
    assert(timers@ =~= timers_of(*opts));
    timers
}

/// The tasks of one worker.
#[derive(Debug)]
pub struct TaskGroup {
    /// The worker.
    pub worker_id: u128,
    /// Its tasks.
    pub tasks: Vec<TaskInfo>,
    /// Its options, as the first of the tasks has them.
    pub opts: WorkerOpts,
}

/// Holds of the tasks of `worker_id`.
pub open spec fn runs_on(worker_id: u128) -> spec_fn((u128, TaskInfo, WorkerOpts)) -> bool {
    |task: (u128, TaskInfo, WorkerOpts)| task.0 == worker_id
}

/// The snapshots of tasks.
pub open spec fn infos(tasks: Seq<(u128, TaskInfo, WorkerOpts)>) -> Seq<TaskInfo> {
    Seq::new(tasks.len(), |i: int| tasks[i].1)
}

/// `groups` are `tasks` by worker: one group for each worker with a task, with
/// the worker's tasks in their order.
pub open spec fn grouped(
    tasks: Seq<(u128, TaskInfo, WorkerOpts)>,
    groups: Seq<TaskGroup>,
) -> bool {
    &&& forall|i: int, j: int|
        0 <= i < j < groups.len() ==> groups[i].worker_id != groups[j].worker_id
    &&& forall|k: int|
        0 <= k < tasks.len() ==> exists|i: int|
            0 <= i < groups.len() && (#[trigger] groups[i]).worker_id == (#[trigger] tasks[k]).0
    &&& forall|i: int|
        0 <= i < groups.len() ==> {
            let own = tasks.filter(runs_on((#[trigger] groups[i]).worker_id));
            &&& own.len() > 0
            &&& groups[i].tasks@ == infos(own)
            &&& groups[i].opts == own[0].2
        }
}

/// A task more in its group leaves the groups in order.
proof fn lemma_group_step(
    tasks: Seq<(u128, TaskInfo, WorkerOpts)>,
    groups: Seq<TaskGroup>,
    task: (u128, TaskInfo, WorkerOpts),
    at: int,
    after: Seq<TaskGroup>,
)
    requires
        grouped(tasks, groups),
        0 <= at <= groups.len(),
        forall|i: int| 0 <= i < at ==> (#[trigger] groups[i]).worker_id != task.0,
        at < groups.len() ==> groups[at].worker_id == task.0 && after.len() == groups.len()
            && after[at].worker_id == task.0 && after[at].opts == groups[at].opts
            && after[at].tasks@ == groups[at].tasks@.push(task.1) && forall|i: int|
            0 <= i < groups.len() && i != at ==> #[trigger] after[i] == groups[i],
        at == groups.len() ==> after.len() == groups.len() + 1 && after[at].worker_id == task.0
            && after[at].opts == task.2 && after[at].tasks@ == seq![task.1] && forall|i: int|
            0 <= i < groups.len() ==> #[trigger] after[i] == groups[i],
    ensures
        grouped(tasks.push(task), after),
{
    let more = tasks.push(task);
    assert(more.drop_last() =~= tasks);
    reveal(Seq::filter);
    assert forall|i: int, j: int| 0 <= i < j < after.len() implies after[i].worker_id
        != after[j].worker_id by {
        if i < groups.len() && j < groups.len() {
            assert(groups[i].worker_id != groups[j].worker_id);
            assert(after[i].worker_id == groups[i].worker_id);
            assert(after[j].worker_id == groups[j].worker_id);
        } else {
            assert(groups[i].worker_id != task.0);
            assert(after[i].worker_id == groups[i].worker_id);
        }
    }
    assert forall|k: int| 0 <= k < more.len() implies exists|i: int|
        0 <= i < after.len() && (#[trigger] after[i]).worker_id == (#[trigger] more[k]).0 by {
        if k < tasks.len() {
            assert(more[k] == tasks[k]);
            let i = choose|i: int|
                0 <= i < groups.len() && (#[trigger] groups[i]).worker_id == tasks[k].0;
            assert(after[i].worker_id == groups[i].worker_id);
        } else {
            assert(after[at].worker_id == more[k].0);
        }
    }
    assert forall|i: int| 0 <= i < after.len() implies {
        let own = more.filter(runs_on((#[trigger] after[i]).worker_id));
        &&& own.len() > 0
        &&& after[i].tasks@ == infos(own)
        &&& after[i].opts == own[0].2
    } by {
        let own = more.filter(runs_on(after[i].worker_id));
        if i == at {
            let before = tasks.filter(runs_on(task.0));
            assert(own == before.push(task));
            if at < groups.len() {
                assert(before == tasks.filter(runs_on(groups[at].worker_id)));
                assert(infos(own) =~= infos(before).push(task.1));
            } else {
                assert forall|k: int| 0 <= k < tasks.len() implies !runs_on(task.0)(
                    #[trigger] tasks[k],
                ) by {
                    let g = choose|g: int|
                        0 <= g < groups.len() && (#[trigger] groups[g]).worker_id == tasks[k].0;
                    assert(groups[g].worker_id != task.0);
                }
                sequences::lemma_filter_none(tasks, runs_on(task.0));
                assert(infos(own) =~= seq![task.1]);
            }
        } else {
            assert(after[i] == groups[i]);
            if at < groups.len() {
                if i < at {
                    assert(groups[i].worker_id != groups[at].worker_id);
                } else {
                    assert(groups[at].worker_id != groups[i].worker_id);
                }
            } else {
                assert(groups[i].worker_id != task.0);
            }
            assert(own == tasks.filter(runs_on(groups[i].worker_id)));
        }
    }
}

/// Groups tasks by their workers.
pub fn group_tasks(tasks: Vec<(u128, TaskInfo, WorkerOpts)>) -> (groups: Vec<TaskGroup>)
    ensures
        grouped(tasks@, groups@),
{
    let ghost all = tasks@;
    let mut todo = tasks;
    let mut rest: Vec<(u128, TaskInfo, WorkerOpts)> = Vec::new();
    while todo.len() > 0
        invariant
            todo@ + rest@.reverse() =~= all,
        decreases todo.len(),
    {
        if let Some(task) = todo.pop() {
            rest.push(task);
        }
    }
    assert(rest@.reverse() =~= all);
    let mut groups: Vec<TaskGroup> = Vec::new();
    assert(all.take(0) =~= Seq::empty());
    while rest.len() > 0
        invariant
            rest@.len() <= all.len(),
            rest@ =~= all.skip(all.len() - rest@.len()).reverse(),
            grouped(all.take(all.len() - rest@.len()), groups@),
        decreases rest.len(),
    {
        let ghost left = rest@;
        let ghost k = all.len() - left.len();
        let ghost had = groups@;
        if let Some((worker_id, info, opts)) = rest.pop() {
            let ghost task = (worker_id, info, opts);
            assert(left[left.len() - 1] == all[k]);
            let mut at: usize = 0;
            while at < groups.len() && groups[at].worker_id != worker_id
                invariant
                    at <= groups.len(),
                    groups@ == had,
                    forall|i: int| 0 <= i < at ==> (#[trigger] groups@[i]).worker_id != worker_id,
                decreases groups.len() - at,
            {
                at += 1;
            }
            if at < groups.len() {
                let group = groups.remove(at);
                let mut group = group;
                group.tasks.push(info);
                groups.insert(at, group);
            } else {
                let mut own: Vec<TaskInfo> = Vec::new();
                own.push(info);
                assert(own@ =~= seq![info]);
                groups.push(TaskGroup { worker_id, tasks: own, opts });
            }
            proof {
                lemma_group_step(all.take(k), had, task, at as int, groups@);
                assert(all.take(k + 1) =~= all.take(k).push(task));
            }
        }
    }
    assert(all.take(all.len() as int) =~= all);
    groups
}

/// The metrics of a worker from its tasks, as of `now`: kept for as long as
/// they are updated.
pub fn group_metrics(group: TaskGroup, now: Dt) -> (metrics: WorkerMetrics)
    ensures
        metrics == (WorkerMetrics {
            worker_id: group.worker_id,
            active_len: group.tasks@.len() as usize,
            tasks: group.tasks,
            last_updated: now,
            ttl_ms: group.opts.metrics_update_interval,
        }),
{
    let active_len: usize = group.tasks.len();
    WorkerMetrics::new_at(
        group.worker_id,
        active_len,
        group.tasks,
        group.opts.metrics_update_interval,
        now,
    )
}

/// A timer fires after the time it was made with; that of a worker's report after the
/// time that the report is kept, and that of a delayed job at the next look for it.
pub proof fn law_timers_fire_in_time(duration: TimeSpan, job_id: u64, queue_id: u128)
    ensures
        TimerType::StalledCheck(duration).duration() == duration,
        TimerType::ExtendLock(duration).duration() == duration,
        TimerType::CollectMetrics(duration).duration() == duration,
        TimerType::PromotedDelayed(job_id, queue_id).duration()@ == MIN_DELAY_MS_LIMIT * 1_000_000,
        TimerType::ReregisterWorker.duration()@ == WORKER_STATE_TTL_MS * 1_000_000,
        set_again(TimerType::PromotedDelayed(job_id, queue_id)) is None,
        set_again(TimerType::StalledCheck(duration)) == Some(TimerType::StalledCheck(duration)),
        set_again(TimerType::ExtendLock(duration)) == Some(TimerType::ExtendLock(duration)),
        set_again(TimerType::CollectMetrics(duration)) == Some(TimerType::CollectMetrics(duration)),
        set_again(TimerType::ReregisterWorker) == Some(TimerType::ReregisterWorker),
{
    parameters::law_span_has_its_millis(MIN_DELAY_MS_LIMIT, MIN_DELAY_MS_LIMIT);
    parameters::law_span_has_its_millis(WORKER_STATE_TTL_MS, WORKER_STATE_TTL_MS);
}

/// A timer does nothing for those it is not for: a lock is extended only for a job that
/// is being processed by a worker that renews its locks this often, for as long as the
/// job's options say and with its own token; metrics are collected only of jobs that
/// are looked at this often; a closed worker is not reported; stalled jobs are looked
/// for with the options of the first worker that looks this often, and not where none
/// does; and a delayed job is promoted under its own id.
pub proof fn law_timers_serve_no_one_else(
    workers: Seq<WorkerEntry>,
    jobs: Seq<JobEntry>,
    duration: TimeSpan,
    job_id: u64,
    queue_id: u128,
    work: TimerWork,
    i: int,
)
    requires
        jobs.len() <= usize::MAX,
    ensures
        is_work_of(TimerType::ExtendLock(duration), workers, jobs, work) ==> (work matches
            TimerWork::ExtendLocks(extensions) && (0 <= i < extensions@.len() ==> exists|k: int|
            0 <= k < jobs.len() && (#[trigger] jobs[k]).id == Some(extensions@[i].job_id)
                && jobs[k].token == extensions@[i].token && jobs[k].opts.lock_duration
                == extensions@[i].lock_duration && exists|w: int|
                0 <= w < workers.len() && (#[trigger] workers[w]).id == jobs[k].token.0
                    && parameters::span_of_millis(workers[w].opts.renew_interval()) == duration)),
        is_work_of(TimerType::CollectMetrics(duration), workers, jobs, work) ==> (work matches
            TimerWork::Collect(chosen) && (0 <= i < chosen@.len() ==> chosen@[i] < jobs.len()
            && parameters::span_of_millis(jobs[chosen@[i] as int].opts.metrics_update_interval)
            == duration)),
        is_work_of(TimerType::ReregisterWorker, workers, jobs, work) ==> (work matches
            TimerWork::Heartbeat(ids) && (0 <= i < ids@.len() ==> exists|k: int|
            0 <= k < workers.len() && (#[trigger] workers[k]).id == ids@[i] && workers[k].state
                != WorkerState::Closed)),
        is_work_of(TimerType::StalledCheck(duration), workers, jobs, work) ==> (work matches
            TimerWork::CheckStalled(opts) && match opts {
            Some(opts) => exists|k: int|
                0 <= k < workers.len() && (#[trigger] workers[k]).opts == opts
                    && parameters::span_of_millis(opts.stalled_interval) == duration && forall|j: int|
                    0 <= j < k ==> parameters::span_of_millis(
                        (#[trigger] workers[j]).opts.stalled_interval,
                    ) != duration,
            None => forall|k: int|
                0 <= k < workers.len() ==> parameters::span_of_millis(
                    (#[trigger] workers[k]).opts.stalled_interval,
                ) != duration,
        }),
        is_work_of(TimerType::PromotedDelayed(job_id, queue_id), workers, jobs, work) ==> work
            == TimerWork::Promote(job_id),
{
    let extended = jobs.filter(is_extended(workers, duration));
    sequences::lemma_filter_elements(jobs, is_extended(workers, duration));
    if let TimerWork::ExtendLocks(extensions) = work {
        if extends(extended, extensions@) && 0 <= i < extensions@.len() {
            assert(extensions@[i] == extension_of(extended[i]));
            assert(jobs.contains(extended[i]));
            let k = choose|k: int| 0 <= k < jobs.len() && jobs[k] == extended[i];
            assert(jobs[k] == extended[i]);
        }
    }
    let all = positions(jobs.len());
    sequences::lemma_filter_elements(all, is_collected(jobs, duration));
    if let TimerWork::Collect(chosen) = work {
        let kept = all.filter(is_collected(jobs, duration));
        if chosen@ == kept && 0 <= i < kept.len() {
            assert(all.contains(kept[i]));
            let k = choose|k: int| 0 <= k < all.len() && all[k] == kept[i];
            assert(all[k] == k as usize);
            assert(is_collected(jobs, duration)(kept[i]));
        }
    }
    let there = workers.filter(is_there());
    sequences::lemma_filter_elements(workers, is_there());
    if let TimerWork::Heartbeat(ids) = work {
        if ids@ == ids_of(there) && 0 <= i < ids@.len() {
            assert(is_there()(there[i]));
            assert(workers.contains(there[i]));
            let k = choose|k: int| 0 <= k < workers.len() && workers[k] == there[i];
            assert(workers[k].id == ids@[i]);
        }
    }
    let looking = workers.filter(checks_every(duration));
    sequences::lemma_filter_elements(workers, checks_every(duration));
    assert forall|k: int| 0 <= k < workers.len() && looking.len() == 0 implies !checks_every(
        duration,
    )(#[trigger] workers[k]) by {
        if checks_every(duration)(workers[k]) {
            assert(looking.contains(workers[k]));
        }
    }
    if looking.len() > 0 {
        let k = lemma_first_kept(workers, checks_every(duration));
        assert(workers[k].opts == looking[0].opts);
        assert(checks_every(duration)(workers[k]));
        assert forall|j: int| 0 <= j < k implies parameters::span_of_millis(
            (#[trigger] workers[j]).opts.stalled_interval,
        ) != duration by {
            assert(!checks_every(duration)(workers[j]));
        }
    }
}

/// The first element that a filter keeps is the first one that it holds of.
proof fn lemma_first_kept(workers: Seq<WorkerEntry>, keep: spec_fn(WorkerEntry) -> bool) -> (k: int)
    requires
        workers.filter(keep).len() > 0,
    ensures
        0 <= k < workers.len(),
        keep(workers[k]),
        workers[k] == workers.filter(keep)[0],
        forall|j: int| 0 <= j < k ==> !keep(#[trigger] workers[j]),
    decreases workers.len(),
{
    reveal(Seq::filter);
    let before = workers.drop_last();
    if before.filter(keep).len() > 0 {
        let k = lemma_first_kept(before, keep);
        assert forall|j: int| 0 <= j < k implies !keep(#[trigger] workers[j]) by {
            assert(before[j] == workers[j]);
        }
        assert(before[k] == workers[k]);
        k
    } else {
        sequences::lemma_filter_elements(before, keep);
        assert forall|j: int| 0 <= j < before.len() implies !keep(#[trigger] workers[j]) by {
            assert(before[j] == workers[j]);
            if keep(before[j]) {
                assert(before.filter(keep).contains(before[j]));
            }
        }
        workers.len() - 1
    }
}

/// The timers of a worker: it renews its locks before they expire, looks for stalled
/// jobs and collects metrics as often as its options say, and reports itself.
pub proof fn law_worker_has_its_timers(opts: WorkerOpts)
    ensures
        ({
            let timers = timers_of(opts);
            &&& timers.len() == 4
            &&& timers[0] matches TimerType::ExtendLock(span) && span@ == opts.renew_interval()
                * 1_000_000
            &&& timers[1] matches TimerType::StalledCheck(span) && span@ == opts.stalled_interval
                * 1_000_000
            &&& timers[2] matches TimerType::CollectMetrics(span) && span@
                == opts.metrics_update_interval * 1_000_000
            &&& timers[3] == TimerType::ReregisterWorker
        }),
{
    parameters::law_span_has_its_millis(opts.renew_interval(), 0);
    parameters::law_span_has_its_millis(opts.stalled_interval, 0);
    parameters::law_span_has_its_millis(opts.metrics_update_interval, 0);
}

/// No task is lost when tasks are put in groups: each is in a group, and that is the
/// group of its worker, of which there is one only.
pub proof fn law_tasks_are_in_their_workers_group(
    tasks: Seq<(u128, TaskInfo, WorkerOpts)>,
    groups: Seq<TaskGroup>,
    k: int,
)
    requires
        grouped(tasks, groups),
        0 <= k < tasks.len(),
    ensures
        exists|g: int|
            0 <= g < groups.len() && (#[trigger] groups[g]).worker_id == tasks[k].0
                && groups[g].tasks@.contains(tasks[k].1),
        forall|g: int, h: int|
            0 <= g < groups.len() && 0 <= h < groups.len() && #[trigger] groups[g].worker_id
                == #[trigger] groups[h].worker_id ==> g == h,
{
    let g = choose|g: int|
        0 <= g < groups.len() && (#[trigger] groups[g]).worker_id == tasks[k].0;
    let own = tasks.filter(runs_on(groups[g].worker_id));
    assert(runs_on(groups[g].worker_id)(tasks[k]));
    assert(own.contains(tasks[k]));
    let i = choose|i: int| 0 <= i < own.len() && own[i] == tasks[k];
    assert(infos(own)[i] == tasks[k].1);
    assert(groups[g].tasks@[i] == tasks[k].1);
}

} // verus!
