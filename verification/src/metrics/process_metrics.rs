//! The registry of workers, queues and timers of a process.
use crate::events::parameters::millis_span;
use crate::time::{Dt, TimeSpan, NANOS_PER_MILLI};
use crate::timers::concurrent_timed_map::{TimedMap, TimedState};
use crate::timers::delay_queue_timer::TimerType;
use crate::utils::slot_map::{self, SlotMap};
use crate::worker::{WorkerOpts, WorkerState};
use vstd::prelude::*;

verus! {

/// How long a worker is kept in the registry, in milliseconds.
pub const WORKER_STATE_TTL: u128 = 100_000;

/// How long a worker is kept in the registry, in milliseconds.
pub const WORKER_STATE_TTL_MS: u64 = 100_000;

/// How often process metrics are collected, in milliseconds.
pub const PROCESS_METRIC_UPDATE_INTERVAL: u128 = 300;

/// What the registry holds.
#[verifier::ext_equal]
pub struct CollectorState<W, Q> {
    /// Workers.
    pub workers: TimedState<W>,
    /// Queues.
    pub queues: Map<u128, Q>,
    /// The queues that wait for a timer, by the time after which it fires, in
    /// nanoseconds.
    pub timers: Map<u128, Set<u128>>,
}

impl<W, Q> CollectorState<W, Q> {
    /// The queues that wait for the timer under `key`.
    pub open spec fn waiting_for(self, key: u128) -> Set<u128> {
        if self.timers.dom().contains(key) {
            self.timers[key]
        } else {
            Set::empty()
        }
    }

    /// After a queue began to wait for the timer under `key`.
    pub open spec fn awaiting(self, queue_id: u128, key: u128) -> CollectorState<W, Q> {
        CollectorState {
            timers: self.timers.insert(key, self.waiting_for(key).insert(queue_id)),
            ..self
        }
    }

    /// After a queue was removed.
    pub open spec fn without_queue(self, queue_id: u128) -> CollectorState<W, Q> {
        CollectorState {
            queues: self.queues.remove(queue_id),
            timers: self.timers.map_values(|queues: Set<u128>| queues.remove(queue_id)),
            ..self
        }
    }

    /// After the timer under `key` fired.
    pub open spec fn fired(self, key: u128) -> CollectorState<W, Q> {
        CollectorState { timers: self.timers.remove(key), ..self }
    }

    /// The registered queues that are told when `timer` fires.
    pub open spec fn targets(self, timer: TimerType) -> Set<u128> {
        if self.timers.dom().contains(timer_key(timer)) {
            told(timer, self.timers[timer_key(timer)]).intersect(self.queues.dom())
        } else {
            Set::empty()
        }
    }
}

/// The registry of a process: workers with data `W`, queues with data `Q`, and
/// who waits for which timer.
pub struct ProcessMetricsCollector<W, Q> {
    workers: TimedMap<W>,
    queues: SlotMap<Q>,
    timers: SlotMap<SlotMap<()>>,
}

/// The key of a timer: the time after which it fires, in nanoseconds.
pub open spec fn timer_key(timer: TimerType) -> u128 {
    timer.duration()@ as u128
}

/// The key of a timer.
fn key_of_timer(timer: &TimerType) -> (key: u128)
    requires
        timer.duration().wf(),
    ensures
        key == timer_key(*timer),
{
    let duration = timer.next_duration();
    (duration.secs as u128) * 1_000_000_000 + (duration.nanos as u128)
}

/// The queues that are told when `timer` fires: those that wait for it, and the
/// queue whose job is promoted.
pub open spec fn told(timer: TimerType, waiting: Set<u128>) -> Set<u128> {
    match timer {
        TimerType::PromotedDelayed(_, queue_id) => waiting.insert(queue_id),
        _ => waiting,
    }
}

impl<W, Q> View for ProcessMetricsCollector<W, Q> {
    type V = CollectorState<W, Q>;

    closed spec fn view(&self) -> CollectorState<W, Q> {
        CollectorState {
            workers: self.workers@,
            queues: self.queues@,
            timers: Map::new(
                |key: u128| self.timers@.dom().contains(key),
                |key: u128| self.timers@[key]@.dom(),
            ),
        }
    }
}

impl<W, Q> ProcessMetricsCollector<W, Q> {
    /// The registries are in order.
    pub closed spec fn wf(self) -> bool {
        &&& self.workers.wf()
        &&& self.queues.wf()
        &&& self.timers.wf()
        &&& forall|key: u128| #[trigger] self.timers@.dom().contains(key) ==> self.timers@[key].wf()
    }

    /// An empty registry.
    pub fn new() -> (collector: Self)
        ensures
            collector.wf(),
            collector@ == (CollectorState::<W, Q> {
                workers: TimedState::fresh(),
                queues: Map::empty(),
                timers: Map::empty(),
            }),
    {
        let collector = ProcessMetricsCollector {
            workers: TimedMap::new(),
            queues: SlotMap::new(),
            timers: SlotMap::new(),
        };
        assert(collector@.timers =~= Map::<u128, Set<u128>>::empty());
        collector
    }

    /// Registers a queue, unless it is registered.
    pub fn register_queue(&mut self, queue_id: u128, data: Q)
        requires
            old(self).wf(),
        ensures
            final(self).wf(),
            final(self)@ == (if old(self)@.queues.dom().contains(queue_id) {
                old(self)@
            } else {
                CollectorState {
                    queues: old(self)@.queues.insert(queue_id, data),
                    ..old(self)@
                }
            }),
    {
        if self.queues.contains_key(queue_id) {
            return ;
        }
        self.queues.insert(queue_id, data);
    }

    /// The data of a queue.
    pub fn queue(&self, queue_id: u128) -> (data: Option<&Q>)
        requires
            self.wf(),
        ensures
            match data {
                Some(data) => self@.queues.dom().contains(queue_id) && *data
                    == self@.queues[queue_id],
                None => !self@.queues.dom().contains(queue_id),
            },
    {
        self.queues.get(queue_id)
    }

    /// Registers a worker at `now`, or refreshes it.
    pub fn register_worker_at(&mut self, worker_id: u128, data: W, now: u128)
        requires
            old(self).wf(),
            now + WORKER_STATE_TTL_MS * NANOS_PER_MILLI <= u128::MAX,
        ensures
            final(self).wf(),
            final(self)@ == (CollectorState {
                workers: old(self)@.workers.with_expirable(
                    worker_id,
                    data,
                    (now + WORKER_STATE_TTL_MS * NANOS_PER_MILLI) as u128,
                ),
                ..old(self)@
            }),
    {
        self.workers.insert_expirable_at(worker_id, data, millis_span(WORKER_STATE_TTL_MS), now);
    }

    /// Registers a worker, or refreshes it.
    pub fn register_worker(&mut self, worker_id: u128, data: W)
        requires
            old(self).wf(),
        ensures
            final(self).wf(),
            exists|now: u128|
                now + WORKER_STATE_TTL_MS * NANOS_PER_MILLI <= u128::MAX && final(self)@ == (
                CollectorState {
                    workers: #[trigger] old(self)@.workers.with_expirable(
                        worker_id,
                        data,
                        (now + WORKER_STATE_TTL_MS * NANOS_PER_MILLI) as u128,
                    ),
                    ..old(self)@
                }),
    {
        let now: u128 = self.workers.now();
        self.register_worker_at(worker_id, data, now);
        assert(self@.workers == old(self)@.workers.with_expirable(
            worker_id,
            data,
            (now + WORKER_STATE_TTL_MS * NANOS_PER_MILLI) as u128,
        ));
    }

    /// The workers that have not expired at `now`, in ascending order.
    pub fn live_workers_at(&mut self, now: u128) -> (ids: Vec<u128>)
        requires
            old(self).wf(),
        ensures
            final(self).wf(),
            final(self)@ == (CollectorState {
                workers: old(self)@.workers.purged(now),
                ..old(self)@
            }),
            slot_map::lists_keys(ids@, old(self)@.workers.purged(now).entries.dom()),
    {
        self.workers.iter_at(now)
    }

    /// The workers that have not expired, in ascending order.
    pub fn live_workers(&mut self) -> (ids: Vec<u128>)
        requires
            old(self).wf(),
        ensures
            final(self).wf(),
            exists|now: u128|
                final(self)@ == (CollectorState {
                    workers: #[trigger] old(self)@.workers.purged(now),
                    ..old(self)@
                }),
            slot_map::lists_keys(ids@, final(self)@.workers.entries.dom()),
    {
        let now: u128 = self.workers.now();
        let ids = self.live_workers_at(now);
        assert(self@.workers == old(self)@.workers.purged(now));
        ids
    }

    /// The data of a worker.
    pub fn worker(&self, worker_id: u128) -> (data: Option<&W>)
        requires
            self.wf(),
        ensures
            match data {
                Some(data) => self@.workers.entries.dom().contains(worker_id) && *data
                    == self@.workers.entries[worker_id].value(),
                None => !self@.workers.entries.dom().contains(worker_id),
            },
    {
        self.workers.peek(worker_id)
    }

    /// Whether a queue waits for a timer that fires after the same time.
    pub fn timer_exists(&self, timer: &TimerType, queue_id: u128) -> (found: bool)
        requires
            self.wf(),
            timer.duration().wf(),
        ensures
            found == self@.waiting_for(timer_key(*timer)).contains(queue_id),
    {
        let key: u128 = key_of_timer(timer);
        match self.timers.get(key) {
            Some(queues) => queues.contains_key(queue_id),
            None => false,
        }
    }

    /// Removes a worker.
    pub fn unregister_worker(&mut self, worker_id: u128)
        requires
            old(self).wf(),
        ensures
            final(self).wf(),
            final(self)@ == (CollectorState {
                workers: old(self)@.workers.without(worker_id),
                ..old(self)@
            }),
    {
        self.workers.remove(worker_id);
    }

    /// Removes a queue; it waits for no timer any more.
    pub fn unregister_queue(&mut self, queue_id: u128)
        requires
            old(self).wf(),
        ensures
            final(self).wf(),
            final(self)@ == old(self)@.without_queue(queue_id),
    {
        let ghost before = self@;
        let _ = self.queues.remove(queue_id);
        let keys = self.timers.keys();
        let mut i: usize = 0;
        while i < keys.len()
            invariant
                self.wf(),
                i <= keys.len(),
                slot_map::lists_keys(keys@, before.timers.dom()),
                self@.workers == before.workers,
                self@.queues == before.queues.remove(queue_id),
                self@.timers.dom() == before.timers.dom(),
                forall|key: u128| #[trigger]
                    before.timers.dom().contains(key) ==> self@.timers[key] == if keys@.take(
                        i as int,
                    ).contains(key) {
                        before.timers[key].remove(queue_id)
                    } else {
                        before.timers[key]
                    },
            decreases keys.len() - i,
        {
            let key: u128 = keys[i];
            let ghost seen = keys@.take(i as int);
            let ghost at = self@.timers;
            let ghost held = self.timers@;
            assert(before.timers.dom().contains(keys@[i as int]));
            assert(self@.timers.dom().contains(key));
            assert(held.dom().contains(key));
            if let Some(queues) = self.timers.remove(key) {
                let mut queues = queues;
                let ghost waiting = queues@.dom();
                assert(waiting == at[key]);
                let _ = queues.remove(queue_id);
                assert(queues@.dom() =~= waiting.remove(queue_id));
                self.timers.insert(key, queues);
                proof {
                    assert(self.timers@ =~= held.insert(key, queues));
                    assert forall|other: u128| #[trigger]
                        self.timers@.dom().contains(other) implies self.timers@[other].wf() by {
                        if other != key {
                            assert(held.dom().contains(other));
                        }
                    }
                    assert(self@.timers.dom() =~= at.dom());
                }
            }
            i += 1;
            proof {
                assert(keys@.take(i as int) =~= seen.push(key));
                assert(!seen.contains(key)) by {
                    if seen.contains(key) {
                        let k = choose|k: int| 0 <= k < seen.len() && seen[k] == key;
                        assert(keys@[k] < keys@[i as int - 1]);
                    }
                }
                assert forall|other: u128| #[trigger]
                    before.timers.dom().contains(other) implies self@.timers[other]
                    == if keys@.take(i as int).contains(other) {
                    before.timers[other].remove(queue_id)
                } else {
                    before.timers[other]
                } by {
                    if other == key {
                        assert(seen.push(key)[seen.len() as int] == key);
                    } else {
                        assert(self@.timers[other] == at[other]);
                        if seen.contains(other) {
                            let k = choose|k: int| 0 <= k < seen.len() && seen[k] == other;
                            assert(seen.push(key)[k] == other);
                        }
                        if seen.push(key).contains(other) {
                            let k = choose|k: int|
                                0 <= k < seen.push(key).len() && seen.push(key)[k] == other;
                            assert(seen[k] == other);
                        }
                    }
                }
            }
        }
        proof {
            assert(keys@.take(keys@.len() as int) =~= keys@);
            let left = before.without_queue(queue_id).timers;
            assert forall|key: u128| #[trigger] before.timers.dom().contains(key) implies self@.timers[key]
                == left[key] by {
                assert(keys@.contains(key));
            }
            assert(self@.timers =~= left);
        }
    }

    /// A queue waits for a timer from now on.
    pub fn await_timer(&mut self, queue_id: u128, timer: &TimerType)
        requires
            old(self).wf(),
            timer.duration().wf(),
        ensures
            final(self).wf(),
            final(self)@ == old(self)@.awaiting(queue_id, timer_key(*timer)),
    {
        let ghost before = self@;
        let ghost held = self.timers@;
        let key: u128 = key_of_timer(timer);
        let queues = match self.timers.remove(key) {
            Some(queues) => queues,
            None => SlotMap::new(),
        };
        let mut queues = queues;
        let ghost waiting = queues@.dom();
        assert(waiting =~= if before.timers.dom().contains(key) {
            before.timers[key]
        } else {
            Set::empty()
        });
        queues.insert(queue_id, ());
        assert(queues@.dom() =~= waiting.insert(queue_id));
        self.timers.insert(key, queues);
        proof {
            assert(self.timers@ =~= held.insert(key, queues));
            assert forall|other: u128| #[trigger]
                self.timers@.dom().contains(other) implies self.timers@[other].wf() by {
                if other != key {
                    assert(held.dom().contains(other));
                }
            }
            assert forall|other: u128| other != key && before.timers.dom().contains(other) implies
                self@.timers[other] == before.timers[other] by {
                assert(held.dom().contains(other));
            }
            assert(self@.timers =~= before.timers.insert(key, waiting.insert(queue_id)));
        }
    }

    /// A timer has fired: no queue waits for it any more. Gives the registered
    /// queues that are told, in ascending order; none where no queue had waited
    /// for it.
    pub fn timer_fired(&mut self, timer: &TimerType) -> (targets: Vec<u128>)
        requires
            old(self).wf(),
            timer.duration().wf(),
        ensures
            final(self).wf(),
            final(self)@ == old(self)@.fired(timer_key(*timer)),
            slot_map::lists_keys(targets@, old(self)@.targets(*timer)),
    {
        let ghost before = self@;
        let ghost held = self.timers@;
        let key: u128 = key_of_timer(timer);
        let taken = self.timers.remove(key);
        proof {
            assert forall|other: u128| #[trigger]
                self.timers@.dom().contains(other) implies self.timers@[other].wf() by {
                assert(held.dom().contains(other));
            }
            assert forall|other: u128|
                other != key && before.timers.dom().contains(other) implies self@.timers[other]
                == before.timers[other] by {
                assert(held.dom().contains(other));
            }
            assert(self@.timers =~= before.timers.remove(key));
        }
        let mut targets: Vec<u128> = Vec::new();
        if let Some(queues) = taken {
            let mut queues = queues;
            if let TimerType::PromotedDelayed(_, queue_id) = timer {
                queues.insert(*queue_id, ());
            }
            let ghost all = told(*timer, before.timers[key]);
            assert(queues@.dom() =~= all);
            let keys = queues.keys();
            let mut i: usize = 0;
            while i < keys.len()
                invariant
                    self.wf(),
                    i <= keys.len(),
                    self@.queues == before.queues,
                    self@.workers == before.workers,
                    self@.timers == before.timers.remove(key),
                    slot_map::lists_keys(keys@, all),
                    forall|j: int| 0 <= j < targets@.len() ==> before.queues.dom().contains(
                        #[trigger] targets@[j],
                    ) && keys@.take(i as int).contains(targets@[j]),
                    forall|j: int|
                        0 <= j < i && before.queues.dom().contains(#[trigger] keys@[j])
                            ==> targets@.contains(keys@[j]),
                    forall|j: int, k: int|
                        0 <= j < k < targets@.len() ==> targets@[j] < targets@[k],
                decreases keys.len() - i,
            {
                let ghost had = targets@;
                let ghost seen = keys@.take(i as int);
                if self.queues.contains_key(keys[i]) {
                    targets.push(keys[i]);
                }
                i += 1;
                proof {
                    assert(keys@.take(i as int) =~= seen.push(keys@[i as int - 1]));
                    assert forall|j: int| 0 <= j < targets@.len() implies before.queues.dom().contains(
                        #[trigger] targets@[j],
                    ) && keys@.take(i as int).contains(targets@[j]) by {
                        if j < had.len() {
                            assert(targets@[j] == had[j]);
                            let k = choose|k: int| 0 <= k < seen.len() && seen[k] == had[j];
                            assert(keys@.take(i as int)[k] == had[j]);
                        } else {
                            assert(keys@.take(i as int)[i as int - 1] == targets@[j]);
                        }
                    }
                    assert forall|j: int|
                        0 <= j < i && before.queues.dom().contains(
                            #[trigger] keys@[j],
                        ) implies targets@.contains(keys@[j]) by {
                        if j < i - 1 {
                            assert(had.contains(keys@[j]));
                            let k = choose|k: int| 0 <= k < had.len() && had[k] == keys@[j];
                            assert(targets@[k] == keys@[j]);
                        } else {
                            assert(targets@[had.len() as int] == keys@[j]);
                        }
                    }
                    assert forall|j: int, k: int| 0 <= j < k < targets@.len() implies targets@[j]
                        < targets@[k] by {
                        if k == had.len() {
                            assert(targets@[j] == had[j]);
                            let m = choose|m: int| 0 <= m < seen.len() && seen[m] == had[j];
                            assert(keys@[m] < keys@[i as int - 1]);
                        }
                    }
                }
            }
            proof {
                assert(keys@.take(keys@.len() as int) =~= keys@);
                let goal = all.intersect(before.queues.dom());
                assert forall|j: int| 0 <= j < targets@.len() implies goal.contains(
                    #[trigger] targets@[j],
                ) by {
                    let k = choose|k: int| 0 <= k < keys@.len() && keys@[k] == targets@[j];
                    assert(all.contains(keys@[k]));
                }
                assert forall|id: u128| #[trigger] goal.contains(id) implies targets@.contains(
                    id,
                ) by {
                    assert(keys@.contains(id));
                    let k = choose|k: int| 0 <= k < keys@.len() && keys@[k] == id;
                    assert(before.queues.dom().contains(keys@[k]));
                }
            }
        }
        targets
    }
}

/// A registered queue that waits for a timer is told when it fires, and once
/// only.
pub proof fn law_waiting_queue_is_told_once<W, Q>(
    state: CollectorState<W, Q>,
    queue_id: u128,
    timer: TimerType,
)
    requires
        state.queues.dom().contains(queue_id),
    ensures
        ({
            let waiting = state.awaiting(queue_id, timer_key(timer));
            &&& waiting.targets(timer).contains(queue_id)
            &&& waiting.fired(timer_key(timer)).targets(timer) == Set::<u128>::empty()
        }),
{
}

/// A queue that was removed waits for no timer and is told of none.
pub proof fn law_removed_queue_is_not_told<W, Q>(
    state: CollectorState<W, Q>,
    queue_id: u128,
    timer: TimerType,
)
    ensures
        !state.without_queue(queue_id).targets(timer).contains(queue_id),
        !state.without_queue(queue_id).waiting_for(timer_key(timer)).contains(queue_id),
{
}

/// A worker that is registered again is kept for its whole time from then on.
pub proof fn law_registered_worker_is_kept<W>(
    workers: TimedState<W>,
    worker_id: u128,
    data: W,
    now: u128,
    later: u128,
)
    requires
        now + WORKER_STATE_TTL_MS * NANOS_PER_MILLI <= u128::MAX,
        later < now + WORKER_STATE_TTL_MS * NANOS_PER_MILLI,
    ensures
        workers.with_expirable(
            worker_id,
            data,
            (now + WORKER_STATE_TTL_MS * NANOS_PER_MILLI) as u128,
        ).live(worker_id, later),
{
}

/// Who is told of a timer: of the registered queues exactly those that wait for a timer
/// that fires after the same time, and the queue whose job is promoted, where anyone
/// waits. The timers of other times, the queues and the workers are left alone.
pub proof fn law_only_waiting_queues_are_told<W, Q>(
    state: CollectorState<W, Q>,
    queue_id: u128,
    timer: TimerType,
    other: u128,
)
    ensures
        !state.queues.dom().contains(queue_id) ==> !state.targets(timer).contains(queue_id),
        !(timer is PromotedDelayed) ==> (state.targets(timer).contains(queue_id)
            <==> state.waiting_for(timer_key(timer)).contains(queue_id)
            && state.queues.dom().contains(queue_id)),
        state.targets(timer).contains(queue_id) ==> state.waiting_for(timer_key(timer)).contains(
            queue_id,
        ) || (timer matches TimerType::PromotedDelayed(_, promoted) && promoted == queue_id),
        timer matches TimerType::PromotedDelayed(_, promoted) ==> state.timers.dom().contains(
            timer_key(timer),
        ) && state.queues.dom().contains(promoted) ==> state.targets(timer).contains(promoted),
        other != timer_key(timer) ==> state.fired(timer_key(timer)).waiting_for(other)
            == state.waiting_for(other),
        state.fired(timer_key(timer)).queues == state.queues,
        state.fired(timer_key(timer)).workers == state.workers,
        !state.fired(timer_key(timer)).waiting_for(timer_key(timer)).contains(queue_id),
{
}

/// A queue that begins to wait for a timer waits for it, along with those that did, and
/// for no other; removing a queue leaves the other queues, and what they wait for, as
/// they are.
pub proof fn law_waiting_is_kept_apart<W, Q>(
    state: CollectorState<W, Q>,
    queue_id: u128,
    other_id: u128,
    key: u128,
    other_key: u128,
)
    requires
        queue_id != other_id,
        key != other_key,
    ensures
        ({
            let after = state.awaiting(queue_id, key);
            &&& after.waiting_for(key).contains(queue_id)
            &&& after.waiting_for(key).contains(other_id) <==> state.waiting_for(key).contains(
                other_id,
            )
            &&& after.waiting_for(other_key) == state.waiting_for(other_key)
            &&& after.queues == state.queues && after.workers == state.workers
        }),
        ({
            let left = state.without_queue(queue_id);
            &&& !left.queues.dom().contains(queue_id)
            &&& left.queues.dom().contains(other_id) <==> state.queues.dom().contains(other_id)
            &&& left.queues[other_id] == state.queues[other_id]
            &&& left.waiting_for(key).contains(other_id) <==> state.waiting_for(key).contains(
                other_id,
            )
            &&& left.workers == state.workers
        }),
{
}

/// The key of a timer is the time after which it fires, in nanoseconds: timers that fire
/// after the same time have one key, and others have another.
pub proof fn law_timers_of_one_time_have_one_key(a: TimerType, b: TimerType)
    requires
        a.duration().wf(),
        b.duration().wf(),
    ensures
        timer_key(a) == a.duration().secs * 1_000_000_000 + a.duration().nanos,
        timer_key(a) == timer_key(b) <==> a.duration() == b.duration(),
{
}

/// A worker that was not heard of for its whole time is not kept.
pub proof fn law_silent_worker_is_dropped<W>(
    workers: TimedState<W>,
    worker_id: u128,
    data: W,
    now: u128,
    later: u128,
)
    requires
        !workers.disabled,
        now + WORKER_STATE_TTL_MS * 1_000_000 <= u128::MAX,
        later >= now + WORKER_STATE_TTL_MS * 1_000_000,
    ensures
        !workers.with_expirable(
            worker_id,
            data,
            (now + WORKER_STATE_TTL_MS * NANOS_PER_MILLI) as u128,
        ).live(worker_id, later),
        WORKER_STATE_TTL == WORKER_STATE_TTL_MS,
{
}

/// What a queue's timer task is told.
#[derive(Debug, Clone, Copy, PartialEq, Eq, Structural)]
pub enum TimerCommand {
    /// A timer has fired.
    RespondToTimer(TimerType),
}

/// Metadata of one worker.
#[derive(Debug, Clone, Copy, PartialEq, Eq, Structural)]
pub struct WorkerMeta {
    /// The worker.
    pub worker_id: u128,
    /// When it was made.
    pub started_at: Dt,
    /// Its state.
    pub state: WorkerState,
    /// Its options.
    pub worker_opts: WorkerOpts,
    /// When this was recorded.
    pub last_updated: Dt,
    /// How many jobs it processes.
    pub processing: usize,
}

impl WorkerMeta {
    /// Metadata recorded at `now`.
    pub fn new_at(
        worker_id: u128,
        started_at: Dt,
        state: WorkerState,
        worker_opts: WorkerOpts,
        processing: usize,
        now: Dt,
    ) -> (meta: Self)
        ensures
            meta == (WorkerMeta {
                worker_id,
                started_at,
                state,
                worker_opts,
                last_updated: now,
                processing,
            }),
    {
        WorkerMeta { worker_id, started_at, state, worker_opts, last_updated: now, processing }
    }

    /// Metadata recorded now.
    pub fn new(
        worker_id: u128,
        started_at: Dt,
        state: WorkerState,
        worker_opts: WorkerOpts,
        processing: usize,
    ) -> (meta: Self)
        ensures
            meta == (WorkerMeta {
                worker_id,
                started_at,
                state,
                worker_opts,
                last_updated: meta.last_updated,
                processing,
            }),
    {
        Self::new_at(worker_id, started_at, state, worker_opts, processing, Dt::now())
    }
}

/// Figures of the asynchronous runtime.
#[derive(Debug, Clone, Copy, PartialEq, Eq, Hash, Structural)]
pub struct RawRuntimeMetrics {
    /// Worker threads.
    pub workers_count: usize,
    /// Tasks that are alive.
    pub live_tasks_count: usize,
    /// How often worker threads parked.
    pub total_park_count: u64,
    /// The most a worker thread parked.
    pub max_park_count: u64,
    /// The least a worker thread parked.
    pub min_park_count: u64,
    /// Time spent executing tasks.
    pub total_busy_duration: TimeSpan,
    /// The most time a worker thread spent so.
    pub max_busy_duration: TimeSpan,
    /// The least time a worker thread spent so.
    pub min_busy_duration: TimeSpan,
    /// Length of the global queue.
    pub global_queue_depth: usize,
    /// Time that the figures cover.
    pub elapsed: TimeSpan,
}

} // verus!
