//! Counts of a queue's jobs by state.
use crate::queue::options::QueueEventMode;
use vstd::prelude::*;

verus! {

/// A snapshot of a queue's counts.
#[derive(Debug, Clone, Copy, PartialEq, Eq, Structural)]
pub struct QueueMetrics {
    /// The highest job id ever assigned.
    pub last_id: u64,
    /// Jobs being processed by workers.
    pub processing: u64,
    /// Jobs in the priority set.
    pub prioritized: u64,
    /// Active jobs.
    pub active: u64,
    /// Stalled jobs.
    pub stalled: u64,
    /// Jobs scheduled for later.
    pub delayed: u64,
    /// Completed jobs.
    pub completed: u64,
    /// Failed jobs.
    pub failed: u64,
    /// Jobs in the paused list.
    pub paused: u64,
    /// Jobs waiting for a worker.
    pub waiting: u64,
    /// Whether the queue is paused.
    pub is_paused: bool,
    /// How events are delivered.
    pub event_mode: QueueEventMode,
}

impl QueueMetrics {
    /// All counts zero, not paused, stream events.
    pub open spec fn zero() -> QueueMetrics {
        QueueMetrics {
            last_id: 0,
            processing: 0,
            prioritized: 0,
            active: 0,
            stalled: 0,
            delayed: 0,
            completed: 0,
            failed: 0,
            paused: 0,
            waiting: 0,
            is_paused: false,
            event_mode: QueueEventMode::Stream,
        }
    }

    /// Jobs wait to be picked up: waiting, delayed, stalled or prioritized
    /// ones.
    pub open spec fn has_work(self) -> bool {
        self.waiting > 0 || self.delayed > 0 || self.stalled > 0 || self.prioritized > 0
    }

    /// No work waits, no job is active, no worker is processing, and there was
    /// a job at some time.
    pub open spec fn idle(self) -> bool {
        self.last_id > 0 && !self.has_work() && self.active == 0 && self.processing == 0
    }

    /// Every job that was ever enqueued has completed.
    pub open spec fn all_completed(self) -> bool {
        self.last_id > 0 && self.completed == self.last_id && self.active == 0 && self.idle()
    }

    /// Whether every job that was ever enqueued has completed.
    pub fn all_jobs_completed(&self) -> (all: bool)
        ensures
            all == self.all_completed(),
    {
        let last_id: u64 = self.last_id;
        last_id > 0 && self.completed == last_id && self.active == 0 && self.is_idle()
    }

    /// A snapshot with these counts.
    pub fn new(
        last_id: u64,
        processing: u64,
        active: u64,
        stalled: u64,
        completed: u64,
        delayed: u64,
        prioritized: u64,
        paused: u64,
        failed: u64,
        waiting: u64,
        is_paused: bool,
        event_mode: QueueEventMode,
    ) -> (metrics: Self)
        ensures
            metrics == (QueueMetrics {
                last_id,
                processing,
                prioritized,
                active,
                stalled,
                delayed,
                completed,
                failed,
                paused,
                waiting,
                is_paused,
                event_mode,
            }),
    {
        QueueMetrics {
            last_id,
            processing,
            prioritized,
            active,
            stalled,
            delayed,
            completed,
            failed,
            paused,
            waiting,
            is_paused,
            event_mode,
        }
    }

    /// Takes over the counts and the event mode of `other`; the pause flag
    /// stays.
    pub fn update(&mut self, other: &Self)
        ensures
            *final(self) == (QueueMetrics { is_paused: old(self).is_paused, ..*other }),
    {
        self.paused = other.paused;
        self.completed = other.completed;
        self.stalled = other.stalled;
        self.active = other.active;
        self.last_id = other.last_id;
        self.delayed = other.delayed;
        self.failed = other.failed;
        self.waiting = other.waiting;
        self.processing = other.processing;
        self.prioritized = other.prioritized;
        self.event_mode = other.event_mode;
    }

    /// Whether there are delayed jobs.
    pub fn has_delayed(&self) -> (has: bool)
        ensures
            has == (self.delayed > 0),
    {
        self.delayed > 0
    }

    /// Whether jobs wait to be picked up.
    pub fn queue_has_work(&self) -> (has: bool)
        ensures
            has == self.has_work(),
    {
        self.waiting > 0 || self.delayed > 0 || self.stalled > 0 || self.prioritized > 0
    }

    /// Whether the queue is paused.
    pub fn queue_is_paused(&self) -> (paused: bool)
        ensures
            paused == self.is_paused,
    {
        self.is_paused
    }

    /// Whether no worker is processing a job.
    pub fn workers_idle(&self) -> (idle: bool)
        ensures
            idle == (self.processing == 0),
    {
        self.processing == 0
    }

    /// Whether a job is active.
    pub fn has_active_jobs(&self) -> (has: bool)
        ensures
            has == (self.active > 0),
    {
        self.active > 0
    }

    /// Whether the queue is quiescent after at least one job.
    pub fn is_idle(&self) -> (idle: bool)
        ensures
            idle == self.idle(),
    {
        self.last_id > 0 && !self.queue_has_work() && !self.has_active_jobs()
            && self.workers_idle()
    }

    /// Resets the snapshot to that of a freshly created queue.
    pub fn clear(&mut self)
        ensures
            *final(self) == Self::zero(),
    {
        let default = Self::default();
        self.update(&default);
        self.is_paused = false;
    }
}

impl Default for QueueMetrics {
    /// All counts zero.
    fn default() -> (metrics: Self)
        ensures
            metrics == QueueMetrics::zero(),
    {
        QueueMetrics {
            last_id: 0,
            processing: 0,
            prioritized: 0,
            active: 0,
            stalled: 0,
            delayed: 0,
            completed: 0,
            failed: 0,
            paused: 0,
            waiting: 0,
            is_paused: false,
            event_mode: QueueEventMode::default(),
        }
    }
}

/// When all jobs have completed the queue is idle and no work waits.
pub proof fn law_all_completed_is_idle(metrics: QueueMetrics)
    requires
        metrics.all_completed(),
    ensures
        metrics.idle(),
        !metrics.has_work(),
        metrics.completed == metrics.last_id,
{
}

/// A freshly created queue is not idle: no job was ever enqueued.
pub proof fn law_fresh_queue_is_not_idle()
    ensures
        !QueueMetrics::zero().idle(),
        !QueueMetrics::zero().all_completed(),
{
}

/// A queue has work exactly when a job of it waits, is prioritized, is delayed or is
/// stalled: each of the four counts alone is enough, and no other count is.
pub proof fn law_work_is_what_waits(metrics: QueueMetrics)
    ensures
        metrics.waiting > 0 ==> metrics.has_work(),
        metrics.prioritized > 0 ==> metrics.has_work(),
        metrics.delayed > 0 ==> metrics.has_work(),
        metrics.stalled > 0 ==> metrics.has_work(),
        metrics.waiting == 0 && metrics.prioritized == 0 && metrics.delayed == 0
            && metrics.stalled == 0 ==> !metrics.has_work(),
{
}

/// A queue is idle exactly when it had a job, and none waits, is prioritized,
/// delayed, stalled or active, and no worker is processing one. How many jobs
/// completed or failed, and how many a paused queue holds, makes no difference.
pub proof fn law_idle_is_nothing_to_do(metrics: QueueMetrics, other: QueueMetrics)
    ensures
        metrics.waiting > 0 || metrics.prioritized > 0 || metrics.delayed > 0 || metrics.stalled
            > 0 || metrics.active > 0 || metrics.processing > 0 || metrics.last_id == 0
            ==> !metrics.idle(),
        metrics.waiting == 0 && metrics.prioritized == 0 && metrics.delayed == 0
            && metrics.stalled == 0 && metrics.active == 0 && metrics.processing == 0
            && metrics.last_id > 0 ==> metrics.idle(),
        metrics.idle() == (QueueMetrics {
            completed: other.completed,
            failed: other.failed,
            paused: other.paused,
            is_paused: other.is_paused,
            event_mode: other.event_mode,
            ..metrics
        }).idle(),
{
}

/// All jobs of a queue have completed exactly when the queue is idle and as many
/// have completed as were ever enqueued: one job that failed, or that is anywhere
/// else, is enough for the answer to be no.
pub proof fn law_all_completed_counts_every_job(metrics: QueueMetrics)
    ensures
        metrics.last_id > 0 && metrics.completed == metrics.last_id && metrics.waiting == 0
            && metrics.prioritized == 0 && metrics.delayed == 0 && metrics.stalled == 0
            && metrics.active == 0 && metrics.processing == 0 ==> metrics.all_completed(),
        metrics.completed != metrics.last_id || metrics.waiting > 0 || metrics.prioritized > 0
            || metrics.delayed > 0 || metrics.stalled > 0 || metrics.active > 0
            || metrics.processing > 0 || metrics.last_id == 0 ==> !metrics.all_completed(),
{
}

/// The counts of a new queue: there is no job anywhere, and there never was one.
pub proof fn law_new_queue_counts_nothing()
    ensures
        ({
            let zero = QueueMetrics::zero();
            &&& zero.last_id == 0 && zero.processing == 0
            &&& zero.waiting == 0 && zero.prioritized == 0 && zero.delayed == 0
            &&& zero.stalled == 0 && zero.active == 0 && zero.paused == 0
            &&& zero.completed == 0 && zero.failed == 0
            &&& !zero.is_paused
            &&& zero.event_mode == QueueEventMode::Stream
            &&& !zero.has_work()
        }),
{
}

} // verus!
