//! Events and metrics.
use super::InMemoryStore;
use crate::error::KioResult;
use crate::events::parameters::{self, millis_span};
use crate::events::{EventParameters, QueueStreamEvent};
use crate::metrics::WorkerMetrics;
use crate::queue::QueueMetrics;
use crate::stores::state::{Listener, StoreState};
use crate::time::Dt;
use crate::timers::concurrent_timed_map::TimedState;
use crate::utils::scheduling;
use crate::utils::scheduling::pause_or_resume_workers;
use crate::utils::slot_map;
use crate::utils::text::same_text;
use vstd::prelude::*;

verus! {

/// After metrics were stored under `key` at `now`: they expire `ttl_ms`
/// milliseconds later, whether or not there were any before.
pub open spec fn metrics_stored<V>(
    before: TimedState<V>,
    key: u128,
    metrics: V,
    now: u128,
    ttl_ms: u64,
) -> TimedState<V> {
    before.with_expirable(key, metrics, (now + ttl_ms * 1_000_000) as u128)
}

impl<D, R, P, M> InMemoryStore<D, R, P, M> {
    /// Who is told of events from now on.
    pub fn attach_listener(&mut self, metrics: QueueMetrics, pause_workers: bool)
        requires
            old(self).wf(),
        ensures
            final(self).wf(),
            final(self)@ == (StoreState {
                listener: Some(Listener { metrics, pause_workers }),
                ..old(self)@
            }),
    {
        self.listener = Some(Listener { metrics, pause_workers });
    }

    /// Who is told of events.
    pub fn listener(&self) -> (listener: Option<Listener>)
        ensures
            listener == self@.listener,
    {
        self.listener
    }

    /// What the listeners are to be given for `event`; nothing without a
    /// listener.
    pub fn publish_event(&self, event: QueueStreamEvent<R, P>) -> (parameters: KioResult<
        Option<EventParameters<R, P>>,
    >)
        requires
            self@.listener is Some ==> EventParameters::complete(event),
        ensures
            parameters is Ok,
            self@.listener is None ==> parameters->Ok_0 is None,
            self@.listener is Some ==> (parameters->Ok_0 matches Some(parameters)
                && parameters.stands_for(event)),
    {
        if self.listener.is_none() {
            return Ok(None);
        }
        match EventParameters::from_queue_event(event) {
            Ok(parameters) => Ok(Some(parameters)),
            Err(error) => Err(error),
        }
    }

    /// After the listeners were given an event: brings the queue's metrics up
    /// to date, and pauses or resumes the workers. Says whether the workers
    /// have to be woken.
    pub fn event_published(&mut self) -> (wake: bool)
        requires
            old(self).wf(),
        ensures
            final(self).wf(),
            match old(self)@.listener {
                None => !wake && final(self)@ == old(self)@,
                Some(listener) => {
                    let metrics = QueueMetrics {
                        is_paused: listener.metrics.is_paused,
                        ..old(self)@.metrics()
                    };
                    &&& wake == scheduling::wakes_workers(
                        metrics,
                        listener.pause_workers,
                        old(self)@.is_initial,
                    )
                    &&& final(self)@ == (StoreState {
                        listener: Some(
                            Listener {
                                metrics,
                                pause_workers: scheduling::pause_flag(
                                    metrics,
                                    listener.pause_workers,
                                    old(self)@.is_initial,
                                ),
                            },
                        ),
                        is_initial: false,
                        ..old(self)@
                    })
                },
            },
    {
        let listener = match self.listener {
            Some(listener) => listener,
            None => return false,
        };
        let mut metrics = listener.metrics;
        let mut pause_workers = listener.pause_workers;
        let mut is_initial = self.is_initial;
        let updated = self.get_metrics();
        metrics.update(&updated);
        let wake = pause_or_resume_workers(&metrics, &mut pause_workers, &mut is_initial);
        self.is_initial = is_initial;
        self.listener = Some(Listener { metrics, pause_workers });
        wake
    }

    /// Whether the queue's metadata has a field: the processing count and the
    /// event mode always, the pause flag while the queue is paused.
    pub fn metadata_field_exists(&self, field: &str) -> (exists_: bool)
        ensures
            exists_ == (field@ == "processing"@ || field@ == "event_mode"@ || (field@ == "paused"@
                && self@.is_paused)),
    {
        same_text(field, "processing") || same_text(field, "event_mode") || (same_text(
            field,
            "paused",
        ) && self.is_paused)
    }

    /// Stores the metrics of a worker at `now`, to be kept for `ttl_ms`
    /// milliseconds from then on.
    pub fn store_worker_metrics_at(&mut self, metrics: WorkerMetrics, ttl_ms: u64, now: u128)
        requires
            old(self).wf(),
            now + ttl_ms * 1_000_000 <= u128::MAX,
        ensures
            final(self).wf(),
            final(self)@ == (StoreState {
                worker_metrics: metrics_stored(
                    old(self)@.worker_metrics,
                    metrics.worker_id,
                    metrics,
                    now,
                    ttl_ms,
                ),
                ..old(self)@
            }),
    {
        let key: u128 = metrics.worker_id;
        self.worker_metrics.insert_expirable_at(key, metrics, millis_span(ttl_ms), now);
    }

    /// Stores the metrics of a worker, to be kept for `ttl_ms` milliseconds.
    pub fn store_worker_metrics(&mut self, metrics: WorkerMetrics, ttl_ms: u64)
        requires
            old(self).wf(),
        ensures
            final(self).wf(),
            exists|now: u128|
                now + ttl_ms * 1_000_000 <= u128::MAX && final(self)@ == (StoreState {
                    worker_metrics: #[trigger] metrics_stored(
                        old(self)@.worker_metrics,
                        metrics.worker_id,
                        metrics,
                        now,
                        ttl_ms,
                    ),
                    ..old(self)@
                }),
    {
        let now: u128 = self.worker_metrics.now();
        self.store_worker_metrics_at(metrics, ttl_ms, now);
        assert(self@.worker_metrics == metrics_stored(
            old(self)@.worker_metrics,
            metrics.worker_id,
            metrics,
            now,
            ttl_ms,
        ));
    }

    /// Stores the metrics of process `pid` at `now`, to be kept for `ttl_ms`
    /// milliseconds from then on.
    pub fn store_process_metrics_at(&mut self, pid: u32, metrics: M, ttl_ms: u64, now: u128)
        requires
            old(self).wf(),
            now + ttl_ms * 1_000_000 <= u128::MAX,
        ensures
            final(self).wf(),
            final(self)@ == (StoreState {
                process_metrics: metrics_stored(
                    old(self)@.process_metrics,
                    pid as u128,
                    metrics,
                    now,
                    ttl_ms,
                ),
                ..old(self)@
            }),
    {
        let key: u128 = pid as u128;
        self.process_metrics.insert_expirable_at(key, metrics, millis_span(ttl_ms), now);
    }

    /// Stores the metrics of process `pid`, to be kept for `ttl_ms` milliseconds.
    pub fn store_process_metrics(&mut self, pid: u32, metrics: M, ttl_ms: u64)
        requires
            old(self).wf(),
        ensures
            final(self).wf(),
            exists|now: u128|
                now + ttl_ms * 1_000_000 <= u128::MAX && final(self)@ == (StoreState {
                    process_metrics: #[trigger] metrics_stored(
                        old(self)@.process_metrics,
                        pid as u128,
                        metrics,
                        now,
                        ttl_ms,
                    ),
                    ..old(self)@
                }),
    {
        let now: u128 = self.process_metrics.now();
        self.store_process_metrics_at(pid, metrics, ttl_ms, now);
        assert(self@.process_metrics == metrics_stored(
            old(self)@.process_metrics,
            pid as u128,
            metrics,
            now,
            ttl_ms,
        ));
    }

    /// The metrics of every worker that have not expired at `now`, restated as
    /// of `wall`, in the order of the workers' ids.
    pub fn fetch_worker_metrics_at(&mut self, now: u128, wall: Dt) -> (found: Vec<
        (u128, WorkerMetrics),
    >)
        requires
            old(self).wf(),
        ensures
            final(self).wf(),
            final(self)@ == (StoreState {
                worker_metrics: old(self)@.worker_metrics.purged(now),
                ..old(self)@
            }),
            slot_map::lists_keys(
                keys_in(found@),
                old(self)@.worker_metrics.purged(now).entries.dom(),
            ),
            forall|i: int|
                0 <= i < found@.len() ==> (#[trigger] found@[i]).1.restates(
                    old(self)@.worker_metrics.entries[found@[i].0].value(),
                ) && found@[i].1.last_updated == wall,
    {
        let ghost before = self@.worker_metrics;
        let keys = self.worker_metrics.iter_at(now);
        let mut found: Vec<(u128, WorkerMetrics)> = Vec::new();
        let mut i: usize = 0;
        while i < keys.len()
            invariant
                self.wf(),
                i <= keys.len(),
                self@ == (StoreState { worker_metrics: before.purged(now), ..old(self)@ }),
                slot_map::lists_keys(keys@, before.purged(now).entries.dom()),
                keys_in(found@) == keys@.take(i as int),
                forall|j: int|
                    0 <= j < found@.len() ==> (#[trigger] found@[j]).1.restates(
                        before.entries[found@[j].0].value(),
                    ) && found@[j].1.last_updated == wall,
            decreases keys.len() - i,
        {
            let key: u128 = keys[i];
            let ghost had = found@;
            assert(before.purged(now).entries.dom().contains(keys@[i as int]));
            if let Some(metrics) = self.worker_metrics.peek(key) {
                found.push((key, metrics.restate_at(wall)));
            }
            i += 1;
            proof {
                assert(found@ =~= had.push(found@.last()));
                assert(keys_in(found@) =~= keys_in(had).push(key));
                assert(keys@.take(i as int) =~= keys@.take(i as int - 1).push(key));
            }
        }
        assert(keys@.take(keys@.len() as int) =~= keys@);
        found
    }

    /// The metrics of every worker, restated as of now.
    pub fn fetch_worker_metrics(&mut self) -> (found: Vec<(u128, WorkerMetrics)>)
        requires
            old(self).wf(),
        ensures
            final(self).wf(),
            exists|now: u128|
                final(self)@ == (StoreState {
                    worker_metrics: #[trigger] old(self)@.worker_metrics.purged(now),
                    ..old(self)@
                }),
            slot_map::lists_keys(keys_in(found@), final(self)@.worker_metrics.entries.dom()),
            forall|i: int|
                0 <= i < found@.len() ==> (#[trigger] found@[i]).1.restates(
                    old(self)@.worker_metrics.entries[found@[i].0].value(),
                ),
    {
        let now: u128 = self.worker_metrics.now();
        let wall = Dt::now();
        let found = self.fetch_worker_metrics_at(now, wall);
        assert(self@.worker_metrics == old(self)@.worker_metrics.purged(now));
        found
    }

    /// Copies of the metrics of every process that have not expired at `now`,
    /// in the order of the processes.
    pub fn fetch_process_metrics_at(&mut self, now: u128) -> (found: Vec<(u128, M)>) where M: Clone
        requires
            old(self).wf(),
        ensures
            final(self).wf(),
            final(self)@ == (StoreState {
                process_metrics: old(self)@.process_metrics.purged(now),
                ..old(self)@
            }),
            slot_map::lists_keys(
                keys_in(found@),
                old(self)@.process_metrics.purged(now).entries.dom(),
            ),
            forall|i: int|
                0 <= i < found@.len() ==> cloned(
                    old(self)@.process_metrics.entries[(#[trigger] found@[i]).0].value(),
                    found@[i].1,
                ),
    {
        let ghost before = self@.process_metrics;
        let keys = self.process_metrics.iter_at(now);
        let mut found: Vec<(u128, M)> = Vec::new();
        let mut i: usize = 0;
        while i < keys.len()
            invariant
                self.wf(),
                i <= keys.len(),
                self@ == (StoreState { process_metrics: before.purged(now), ..old(self)@ }),
                slot_map::lists_keys(keys@, before.purged(now).entries.dom()),
                keys_in(found@) == keys@.take(i as int),
                forall|j: int|
                    0 <= j < found@.len() ==> cloned(
                        before.entries[(#[trigger] found@[j]).0].value(),
                        found@[j].1,
                    ),
            decreases keys.len() - i,
        {
            let key: u128 = keys[i];
            let ghost had = found@;
            assert(before.purged(now).entries.dom().contains(keys@[i as int]));
            if let Some(metrics) = self.process_metrics.peek(key) {
                found.push((key, metrics.clone()));
            }
            i += 1;
            proof {
                assert(found@ =~= had.push(found@.last()));
                assert(keys_in(found@) =~= keys_in(had).push(key));
                assert(keys@.take(i as int) =~= keys@.take(i as int - 1).push(key));
            }
        }
        assert(keys@.take(keys@.len() as int) =~= keys@);
        found
    }

    /// Copies of the metrics of every process.
    pub fn fetch_process_metrics(&mut self) -> (found: Vec<(u128, M)>) where M: Clone
        requires
            old(self).wf(),
        ensures
            final(self).wf(),
            exists|now: u128|
                final(self)@ == (StoreState {
                    process_metrics: #[trigger] old(self)@.process_metrics.purged(now),
                    ..old(self)@
                }),
            slot_map::lists_keys(keys_in(found@), final(self)@.process_metrics.entries.dom()),
            forall|i: int|
                0 <= i < found@.len() ==> cloned(
                    old(self)@.process_metrics.entries[(#[trigger] found@[i]).0].value(),
                    found@[i].1,
                ),
    {
        let now: u128 = self.process_metrics.now();
        let found = self.fetch_process_metrics_at(now);
        assert(self@.process_metrics == old(self)@.process_metrics.purged(now));
        found
    }

    /// Evicts what has expired: job records, locks and metrics, each at its
    /// own time.
    pub fn purge_expired_at(
        &mut self,
        jobs_now: u128,
        locks_now: u128,
        workers_now: u128,
        processes_now: u128,
    )
        requires
            old(self).wf(),
        ensures
            final(self).wf(),
            final(self)@ == (StoreState {
                jobs: old(self)@.jobs.purged(jobs_now),
                locks: old(self)@.locks.purged(locks_now),
                worker_metrics: old(self)@.worker_metrics.purged(workers_now),
                process_metrics: old(self)@.process_metrics.purged(processes_now),
                ..old(self)@
            }),
    {
        self.jobs.purge_expired_at(jobs_now);
        self.locks.purge_expired_at(locks_now);
        self.worker_metrics.purge_expired_at(workers_now);
        self.process_metrics.purge_expired_at(processes_now);
    }

    /// Evicts what has expired.
    pub fn purge_expired(&mut self)
        requires
            old(self).wf(),
        ensures
            final(self).wf(),
            exists|a: u128, b: u128, c: u128, d: u128|
                final(self)@ == (StoreState {
                    jobs: #[trigger] old(self)@.jobs.purged(a),
                    locks: #[trigger] old(self)@.locks.purged(b),
                    worker_metrics: #[trigger] old(self)@.worker_metrics.purged(c),
                    process_metrics: #[trigger] old(self)@.process_metrics.purged(d),
                    ..old(self)@
                }),
    {
        let a: u128 = self.jobs.now();
        let b: u128 = self.locks.now();
        let c: u128 = self.worker_metrics.now();
        let d: u128 = self.process_metrics.now();
        self.purge_expired_at(a, b, c, d);
        assert(self@ == (StoreState {
            jobs: old(self)@.jobs.purged(a),
            locks: old(self)@.locks.purged(b),
            worker_metrics: old(self)@.worker_metrics.purged(c),
            process_metrics: old(self)@.process_metrics.purged(d),
            ..old(self)@
        }));
    }
}

/// The keys of pairs.
pub open spec fn keys_in<V>(pairs: Seq<(u128, V)>) -> Seq<u128> {
    Seq::new(pairs.len(), |i: int| pairs[i].0)
}

} // verus!
