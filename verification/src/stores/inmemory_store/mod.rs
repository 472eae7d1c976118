//! A store that keeps everything in memory.
pub mod collections;
pub mod insertion;
pub mod publishing;
pub mod records;

use crate::job::state::JobState;
use crate::job::Job;
use crate::metrics::WorkerMetrics;
use crate::outside::{scored_ids, sorted_ids};
use crate::queue::{CollectionSuffix, QueueEventMode};
use crate::stores::state::{self, Listener, StoreState};
use crate::stores::Lock;
use crate::timers::TimedMap;
use crate::utils::id_set::IdSet;
use crate::utils::sequences;
use crate::utils::sorted_set::SortedSet;
use crate::utils::ConcurrentDeque;
use vstd::prelude::*;

verus! {

/// A store that keeps everything in memory: jobs with input `D`, result `R` and
/// progress `P`, and process metrics `M`.
pub struct InMemoryStore<D, R, P, M> {
    /// The name of the queue.
    pub name: String,
    /// The prefix of every collection's key.
    pub prefix: String,
    processing: u64,
    is_paused: bool,
    jobs: TimedMap<Job<D, R, P>>,
    worker_metrics: TimedMap<WorkerMetrics>,
    process_metrics: TimedMap<M>,
    locks: TimedMap<Lock>,
    id_counter: u64,
    priority_counter: u64,
    completed: SortedSet,
    prioritized: SortedSet,
    delayed: SortedSet,
    failed: SortedSet,
    stalled: IdSet,
    active: ConcurrentDeque,
    waiting: ConcurrentDeque,
    paused: ConcurrentDeque,
    listener: Option<Listener>,
    is_initial: bool,
    event_mode: QueueEventMode,
}

impl<D, R, P, M> View for InMemoryStore<D, R, P, M> {
    type V = StoreState<D, R, P, M>;

    closed spec fn view(&self) -> StoreState<D, R, P, M> {
        StoreState {
            name: self.name@,
            prefix: self.prefix@,
            processing: self.processing,
            is_paused: self.is_paused,
            jobs: self.jobs@,
            worker_metrics: self.worker_metrics@,
            process_metrics: self.process_metrics@,
            locks: self.locks@,
            id_counter: self.id_counter,
            priority_counter: self.priority_counter,
            completed: self.completed@,
            prioritized: self.prioritized@,
            delayed: self.delayed@,
            failed: self.failed@,
            stalled: self.stalled@,
            active: self.active@,
            waiting: self.waiting@,
            paused: self.paused@,
            listener: self.listener,
            is_initial: self.is_initial,
        }
    }
}

/// The key of a record or a lock.
pub(crate) fn store_key(col: CollectionSuffix) -> (key: u128)
    ensures
        key == state::key_of(col),
{
    col.tag() as u128
}

impl<D, R, P, M> InMemoryStore<D, R, P, M> {
    /// Every collection is in order.
    pub closed spec fn wf(self) -> bool {
        &&& self.jobs.wf()
        &&& self.worker_metrics.wf()
        &&& self.process_metrics.wf()
        &&& self.locks.wf()
        &&& self.completed.wf()
        &&& self.prioritized.wf()
        &&& self.delayed.wf()
        &&& self.failed.wf()
        &&& self.stalled.wf()
        &&& self.active.wf()
        &&& self.waiting.wf()
        &&& self.paused.wf()
        &&& self.event_mode == QueueEventMode::PubSub
    }

    /// The sorted sets are in ascending order, by score and by id under one
    /// score, and the stalled jobs by id.
    pub proof fn lemma_in_order(&self)
        requires
            self.wf(),
        ensures
            self@.in_order(),
            scored_ids::ascending(self@.completed),
            scored_ids::ascending(self@.failed),
            scored_ids::ascending(self@.prioritized),
            scored_ids::ascending(self@.delayed),
            sorted_ids::ascending_ids(self@.stalled),
            sequences::scores_fit(self@.completed),
            sequences::scores_fit(self@.failed),
            sequences::scores_fit(self@.prioritized),
            sequences::scores_fit(self@.delayed),
    {
    }

    /// An empty store for the queue `name`. The prefix is `"kio"` where none is
    /// given.
    pub fn new(prefix: Option<&str>, name: &str) -> (store: Self)
        ensures
            store.wf(),
            store@ == StoreState::<D, R, P, M>::fresh(
                match prefix {
                    Some(prefix) => prefix@,
                    None => "kio"@,
                },
                name@,
            ),
    {
        let prefix = match prefix {
            Some(prefix) => String::from_str(prefix),
            None => String::from_str("kio"),
        };
        InMemoryStore {
            name: String::from_str(name),
            prefix,
            processing: 0,
            is_paused: false,
            jobs: TimedMap::new(),
            worker_metrics: TimedMap::new(),
            process_metrics: TimedMap::new(),
            locks: TimedMap::new(),
            id_counter: 0,
            priority_counter: 0,
            completed: SortedSet::new(),
            prioritized: SortedSet::new(),
            delayed: SortedSet::new(),
            failed: SortedSet::new(),
            stalled: IdSet::new(),
            active: ConcurrentDeque::new(),
            waiting: ConcurrentDeque::new(),
            paused: ConcurrentDeque::new(),
            listener: None,
            is_initial: false,
            event_mode: QueueEventMode::PubSub,
        }
    }

    /// Switches expiration off, or on again, for locks, jobs and metrics.
    pub fn toggle_expiration(&mut self)
        requires
            old(self).wf(),
        ensures
            final(self).wf(),
            final(self)@ == (StoreState {
                locks: crate::timers::concurrent_timed_map::TimedState {
                    disabled: !old(self)@.locks.disabled,
                    ..old(self)@.locks
                },
                jobs: crate::timers::concurrent_timed_map::TimedState {
                    disabled: !old(self)@.jobs.disabled,
                    ..old(self)@.jobs
                },
                worker_metrics: crate::timers::concurrent_timed_map::TimedState {
                    disabled: !old(self)@.worker_metrics.disabled,
                    ..old(self)@.worker_metrics
                },
                process_metrics: crate::timers::concurrent_timed_map::TimedState {
                    disabled: !old(self)@.process_metrics.disabled,
                    ..old(self)@.process_metrics
                },
                ..old(self)@
            }),
    {
        self.locks.toggle_expiration();
        self.jobs.toggle_expiration();
        self.worker_metrics.toggle_expiration();
        self.process_metrics.toggle_expiration();
    }

    /// The name of the queue.
    pub fn queue_name(&self) -> (name: &str)
        ensures
            name@ == self@.name,
    {
        self.name.as_str()
    }

    /// The prefix of every collection's key.
    pub fn queue_prefix(&self) -> (prefix: &str)
        ensures
            prefix@ == self@.prefix,
    {
        self.prefix.as_str()
    }

    /// The time now, for the operations on job records that take it.
    pub fn now_for_jobs(&self) -> (now: u128)
        ensures
            now < 0x1_0000_0000_0000_0000 * crate::time::NANOS_PER_SEC,
    {
        self.jobs.now()
    }

    /// The time now, for the operations on locks that take it.
    pub fn now_for_locks(&self) -> (now: u128)
        ensures
            now < 0x1_0000_0000_0000_0000 * crate::time::NANOS_PER_SEC,
    {
        self.locks.now()
    }

    /// The ids in a collection from position `start` to position `end`, both
    /// included, in the order of the collection; from the first where `start`
    /// is absent, to the last where `end` is. Nothing where one of the two
    /// positions does not exist.
    pub fn get_job_ids_in_state(
        &self,
        state: JobState,
        start: Option<usize>,
        end: Option<usize>,
    ) -> (ids: Vec<u64>)
        requires
            self.wf(),
        ensures
            ids@ == sequences::page(
                self@.ids_in(state),
                match start {
                    Some(start) => start as int,
                    None => 0,
                },
                end,
            ),
    {
        let start: usize = match start {
            Some(start) => start,
            None => 0,
        };
        match state {
            JobState::Wait => self.waiting.page(start, end),
            JobState::Prioritized => self.prioritized.page(start, end),
            JobState::Stalled => self.stalled.page(start, end),
            JobState::Active => self.active.page(start, end),
            JobState::Paused => self.paused.page(start, end),
            JobState::Completed => self.completed.page(start, end),
            JobState::Failed => self.failed.page(start, end),
            JobState::Delayed => self.delayed.page(start, end),
            _ => {
                let none: Vec<u64> = Vec::new();
                assert(none@ =~= Seq::<u64>::empty());
                none
            },
        }
    }

    /// Whether `item` is in the collection `col` at `now`. A record or lock
    /// that has expired is evicted.
    pub fn exists_in_at(&mut self, col: CollectionSuffix, item: u64, now: u128) -> (found: bool)
        requires
            old(self).wf(),
        ensures
            final(self).wf(),
            match col {
                CollectionSuffix::Job(_) => found == old(self)@.jobs.live(state::key_of(col), now)
                    && final(self)@ == (StoreState {
                    jobs: old(self)@.jobs.visited(state::key_of(col), now),
                    ..old(self)@
                }),
                CollectionSuffix::Lock(_) | CollectionSuffix::StalledCheck => found == old(
                    self,
                )@.locks.live(state::key_of(col), now) && final(self)@ == (StoreState {
                    locks: old(self)@.locks.visited(state::key_of(col), now),
                    ..old(self)@
                }),
                _ => found == old(self)@.ids_of(col).contains(item) && final(self)@ == old(self)@,
            },
    {
        match col {
            CollectionSuffix::Active => self.active.contains_value(item),
            CollectionSuffix::Wait => self.waiting.contains_value(item),
            CollectionSuffix::Paused => self.paused.contains_value(item),
            CollectionSuffix::Completed => self.completed.contains_id(item),
            CollectionSuffix::Failed => self.failed.contains_id(item),
            CollectionSuffix::Prioritized => self.prioritized.contains_id(item),
            CollectionSuffix::Delayed => self.delayed.contains_id(item),
            CollectionSuffix::Stalled => self.stalled.contains(item),
            CollectionSuffix::Job(_) => self.jobs.contains_key_at(store_key(col), now),
            CollectionSuffix::Lock(_) | CollectionSuffix::StalledCheck => {
                self.locks.contains_key_at(store_key(col), now)
            },
            _ => false,
        }
    }

    /// Whether an id can still be added to `col`, at the tail where `append`
    /// holds, else at the front.
    pub fn has_room(&self, col: CollectionSuffix, append: bool) -> (room: bool)
        requires
            self.wf(),
        ensures
            room == self@.has_room(col, append),
    {
        match col {
            CollectionSuffix::Active => if append {
                self.active.back_room() > 0
            } else {
                self.active.front_room() > 0
            },
            CollectionSuffix::Wait => if append {
                self.waiting.back_room() > 0
            } else {
                self.waiting.front_room() > 0
            },
            CollectionSuffix::Paused => if append {
                self.paused.back_room() > 0
            } else {
                self.paused.front_room() > 0
            },
            _ => true,
        }
    }

    /// How many jobs the waiting list and the paused list can both still take.
    pub fn bulk_room(&self) -> (room: u64)
        requires
            self.wf(),
        ensures
            room == if self@.waiting.front_room < self@.paused.front_room {
                self@.waiting.front_room
            } else {
                self@.paused.front_room
            },
    {
        let waiting: u64 = self.waiting.front_room();
        let paused: u64 = self.paused.front_room();
        if waiting < paused {
            waiting
        } else {
            paused
        }
    }

    /// Whether the one list has room for the ids of the other.
    pub fn can_pause(&self, pause: bool) -> (can: bool)
        requires
            self.wf(),
        ensures
            can == self@.can_pause(pause),
    {
        if pause {
            self.paused.back_room() >= self.waiting.len() as u64
        } else {
            self.waiting.back_room() >= self.paused.len() as u64
        }
    }

    /// Adds `item` to `col`: to the tail of a list where `append` holds, else to
    /// its front; under its score to a sorted set, where it has one, beside the
    /// ids that lie there.
    pub fn add_item(&mut self, col: CollectionSuffix, item: u64, score: Option<i64>, append: bool)
        requires
            old(self).wf(),
            old(self)@.has_room(col, append),
        ensures
            final(self).wf(),
            final(self)@ == old(self)@.item_added(col, item, score, append),
    {
        match col {
            CollectionSuffix::Active => {
                if append {
                    self.active.push_back(item);
                } else {
                    self.active.push_front(item);
                }
            },
            CollectionSuffix::Wait => {
                if append {
                    self.waiting.push_back(item);
                } else {
                    self.waiting.push_front(item);
                }
            },
            CollectionSuffix::Paused => {
                if append {
                    self.paused.push_back(item);
                } else {
                    self.paused.push_front(item);
                }
            },
            CollectionSuffix::Completed => {
                if let Some(score) = score {
                    self.completed.insert(score as i128, item);
                }
            },
            CollectionSuffix::Failed => {
                if let Some(score) = score {
                    self.failed.insert(score as i128, item);
                }
            },
            CollectionSuffix::Prioritized => {
                if let Some(score) = score {
                    self.prioritized.insert(score as i128, item);
                }
            },
            CollectionSuffix::Delayed => {
                if let Some(score) = score {
                    self.delayed.insert(score as i128, item);
                }
            },
            CollectionSuffix::Stalled => {
                self.stalled.insert(item);
            },
            _ => {},
        }
    }

    /// Removes every occurrence of `item` from `col`.
    pub fn remove_item(&mut self, col: CollectionSuffix, item: u64)
        requires
            old(self).wf(),
        ensures
            final(self).wf(),
            final(self)@ == old(self)@.item_removed(col, item),
    {
        match col {
            CollectionSuffix::Active => self.active.remove_value(item),
            CollectionSuffix::Wait => self.waiting.remove_value(item),
            CollectionSuffix::Paused => self.paused.remove_value(item),
            CollectionSuffix::Completed => self.completed.remove_id(item),
            CollectionSuffix::Failed => self.failed.remove_id(item),
            CollectionSuffix::Prioritized => self.prioritized.remove_id(item),
            CollectionSuffix::Delayed => self.delayed.remove_id(item),
            CollectionSuffix::Stalled => self.stalled.remove(item),
            CollectionSuffix::Job(_) => self.jobs.remove(store_key(col)),
            CollectionSuffix::Lock(_) => self.locks.remove(store_key(col)),
            _ => {},
        }
    }
}

} // verus!
