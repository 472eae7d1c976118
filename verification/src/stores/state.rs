//! What a store holds, and what each operation makes of it.
use crate::job::{Job, JobState};
use crate::metrics::WorkerMetrics;
use crate::outside::{scored_ids, sorted_ids};
use crate::queue::{CollectionSuffix, JobField, ProcessedResult, QueueEventMode, QueueMetrics};
use crate::stores::Lock;
use crate::time::{self, Dt, NANOS_PER_MICRO};
use crate::timers::concurrent_timed_map::TimedState;
use crate::utils::id_set;
use crate::utils::sequences;
use crate::utils::DequeState;
use vstd::prelude::*;

verus! {

/// Who is told of events: the metrics that are kept up to date, and whether
/// the workers are paused.
#[derive(Debug, Clone, Copy, PartialEq, Eq, Structural)]
pub struct Listener {
    /// The queue's metrics.
    pub metrics: QueueMetrics,
    /// Whether the workers are paused.
    pub pause_workers: bool,
}

/// What a store holds.
#[verifier::ext_equal]
pub struct StoreState<D, R, P, M> {
    /// The name of the queue.
    pub name: Seq<char>,
    /// The prefix of every collection's key.
    pub prefix: Seq<char>,
    /// Number of jobs being processed.
    pub processing: u64,
    /// Whether the queue is paused.
    pub is_paused: bool,
    /// Job records by the tags of their keys.
    pub jobs: TimedState<Job<D, R, P>>,
    /// Worker metrics by worker.
    pub worker_metrics: TimedState<WorkerMetrics>,
    /// Process metrics by process.
    pub process_metrics: TimedState<M>,
    /// Locks by the tags of their keys.
    pub locks: TimedState<Lock>,
    /// The last job id given out.
    pub id_counter: u64,
    /// The last priority counter given out.
    pub priority_counter: u64,
    /// Completed jobs, `(score, id)` by score and id.
    pub completed: Seq<(i128, u64)>,
    /// Jobs with a priority, `(score, id)` by score and id.
    pub prioritized: Seq<(i128, u64)>,
    /// Delayed jobs, `(score, id)` by score and id.
    pub delayed: Seq<(i128, u64)>,
    /// Failed jobs, `(score, id)` by score and id.
    pub failed: Seq<(i128, u64)>,
    /// Stalled jobs by id.
    pub stalled: Seq<u64>,
    /// Active jobs, front to back.
    pub active: DequeState,
    /// Waiting jobs, front to back. The job at the back is picked up next.
    pub waiting: DequeState,
    /// Jobs held while the queue is paused, front to back.
    pub paused: DequeState,
    /// Who is told of events.
    pub listener: Option<Listener>,
    /// No event has been published yet.
    pub is_initial: bool,
}

/// The key of a record or a lock.
pub open spec fn key_of(col: CollectionSuffix) -> u128 {
    col.tagged() as u128
}

/// `counter` after `delta` was added, modulo 2^64.
pub open spec fn bumped(counter: u64, delta: i64) -> u64 {
    let sum = counter + delta;
    if sum > u64::MAX {
        (sum - 0x1_0000_0000_0000_0000) as u64
    } else if sum < 0 {
        (sum + 0x1_0000_0000_0000_0000) as u64
    } else {
        sum as u64
    }
}

/// A counter of a job after `delta` was added; not below zero.
pub open spec fn bumped_job_counter(counter: u64, delta: i64) -> u64 {
    let sum = (counter as i64) + delta;
    if sum < 0 {
        0
    } else {
        sum as u64
    }
}

/// The counters of a job record that can be incremented.
#[derive(Debug, Clone, Copy, PartialEq, Eq, Structural)]
pub enum JobCounter {
    /// How many attempts were made.
    AttemptsMade,
    /// How often the job stalled.
    StalledCounter,
}

impl JobCounter {
    /// The counter that a field name stands for.
    pub open spec fn of_field(field: Seq<char>) -> Option<JobCounter> {
        if field == "attempts_made"@ || field == "attemptsMade"@ {
            Some(JobCounter::AttemptsMade)
        } else if field == "stalled_counter"@ || field == "stalledCounter"@ {
            Some(JobCounter::StalledCounter)
        } else {
            None
        }
    }

    /// The counter that a field name in lower case stands for.
    pub open spec fn of_lowercase(field: Seq<char>) -> Option<JobCounter> {
        if field == "stalled_counter"@ || field == "stalledcounter"@ {
            Some(JobCounter::StalledCounter)
        } else if field == "attempts_made"@ || field == "attemptsmade"@ {
            Some(JobCounter::AttemptsMade)
        } else {
            None
        }
    }

    /// The counter in a job record.
    pub open spec fn value_in<D, R, P>(self, job: Job<D, R, P>) -> u64 {
        match self {
            JobCounter::AttemptsMade => job.attempts_made,
            JobCounter::StalledCounter => job.stalled_counter,
        }
    }

    /// The job record with another value of the counter.
    pub open spec fn set_in<D, R, P>(self, job: Job<D, R, P>, value: u64) -> Job<D, R, P> {
        match self {
            JobCounter::AttemptsMade => Job { attempts_made: value, ..job },
            JobCounter::StalledCounter => Job { stalled_counter: value, ..job },
        }
    }
}

/// `dt` is the point `micros` microseconds after the Unix epoch, where the
/// calendar reaches it.
pub open spec fn instant_is(dt: Option<Dt>, micros: i64) -> bool {
    match dt {
        Some(dt) => time::in_calendar(micros * NANOS_PER_MICRO) && dt@ == micros * NANOS_PER_MICRO,
        None => !time::in_calendar(micros * NANOS_PER_MICRO),
    }
}

/// `new` is the job record `old` after one field update.
pub open spec fn field_applied<D, R, P>(
    old: Job<D, R, P>,
    field: JobField<R>,
    new: Job<D, R, P>,
) -> bool {
    match field {
        JobField::BackTrace(trace) => new == (Job { stack_trace: new.stack_trace, ..old })
            && new.stack_trace@ == old.stack_trace@.push(trace),
        JobField::State(state) => new == (Job { state, ..old }),
        JobField::ProcessedOn(ts) => new == (Job { processed_on: new.processed_on, ..old })
            && instant_is(new.processed_on, ts as i64),
        JobField::FinishedOn(ts) => new == (Job { finished_on: new.finished_on, ..old })
            && instant_is(new.finished_on, ts as i64),
        JobField::Token(token) => new == (Job { token: Some(token), ..old }),
        JobField::Payload(ProcessedResult::Failed(details)) => new == (Job {
            failed_reason: Some(details),
            ..old
        }),
        JobField::Payload(ProcessedResult::Success(result, _)) => new == (Job {
            returned_value: Some(result),
            ..old
        }),
    }
}

/// `new` is the job record `old` after the field updates, one after the other.
pub open spec fn fields_applied<D, R, P>(
    old: Job<D, R, P>,
    fields: Seq<JobField<R>>,
    new: Job<D, R, P>,
) -> bool
    decreases fields.len(),
{
    if fields.len() == 0 {
        new == old
    } else {
        exists|mid: Job<D, R, P>|
            fields_applied(old, fields.drop_last(), mid) && #[trigger] field_applied(
                mid,
                fields.last(),
                new,
            )
    }
}

impl<D, R, P, M> StoreState<D, R, P, M> {
    /// Nothing is held.
    pub open spec fn fresh(prefix: Seq<char>, name: Seq<char>) -> StoreState<D, R, P, M> {
        StoreState {
            name,
            prefix,
            processing: 0,
            is_paused: false,
            jobs: TimedState::fresh(),
            worker_metrics: TimedState::fresh(),
            process_metrics: TimedState::fresh(),
            locks: TimedState::fresh(),
            id_counter: 0,
            priority_counter: 0,
            completed: Seq::empty(),
            prioritized: Seq::empty(),
            delayed: Seq::empty(),
            failed: Seq::empty(),
            stalled: Seq::empty(),
            active: DequeState::fresh(),
            waiting: DequeState::fresh(),
            paused: DequeState::fresh(),
            listener: None,
            is_initial: false,
        }
    }

    /// The ids in a list or set; those of the other collections are empty.
    pub open spec fn ids_of(self, col: CollectionSuffix) -> Seq<u64> {
        match col {
            CollectionSuffix::Active => self.active.items,
            CollectionSuffix::Wait => self.waiting.items,
            CollectionSuffix::Paused => self.paused.items,
            CollectionSuffix::Completed => sequences::values_of(self.completed),
            CollectionSuffix::Failed => sequences::values_of(self.failed),
            CollectionSuffix::Prioritized => sequences::values_of(self.prioritized),
            CollectionSuffix::Delayed => sequences::values_of(self.delayed),
            CollectionSuffix::Stalled => self.stalled,
            _ => Seq::empty(),
        }
    }

    /// The ids of the jobs in a state.
    pub open spec fn ids_in(self, state: JobState) -> Seq<u64> {
        match state {
            JobState::Wait => self.waiting.items,
            JobState::Prioritized => sequences::values_of(self.prioritized),
            JobState::Stalled => self.stalled,
            JobState::Active => self.active.items,
            JobState::Paused => self.paused.items,
            JobState::Completed => sequences::values_of(self.completed),
            JobState::Failed => sequences::values_of(self.failed),
            JobState::Delayed => sequences::values_of(self.delayed),
            _ => Seq::empty(),
        }
    }

    /// The sorted sets are in ascending order, by score and by id under one
    /// score, and the stalled jobs by id.
    pub open spec fn in_order(self) -> bool {
        &&& scored_ids::ascending(self.completed)
        &&& scored_ids::ascending(self.failed)
        &&& scored_ids::ascending(self.prioritized)
        &&& scored_ids::ascending(self.delayed)
        &&& sorted_ids::ascending_ids(self.stalled)
    }

    /// There is room for one more id in `col` on the side where it goes.
    pub open spec fn has_room(self, col: CollectionSuffix, append: bool) -> bool {
        match col {
            CollectionSuffix::Active => if append {
                self.active.back_room > 0
            } else {
                self.active.front_room > 0
            },
            CollectionSuffix::Wait => if append {
                self.waiting.back_room > 0
            } else {
                self.waiting.front_room > 0
            },
            CollectionSuffix::Paused => if append {
                self.paused.back_room > 0
            } else {
                self.paused.front_room > 0
            },
            _ => true,
        }
    }

    /// After `item` was added to `col`: appended to the tail of a list, or put
    /// at its front. Lists are emptied from the tail. A sorted set takes an
    /// item only under a score, beside those that lie there.
    pub open spec fn item_added(
        self,
        col: CollectionSuffix,
        item: u64,
        score: Option<i64>,
        append: bool,
    ) -> StoreState<D, R, P, M> {
        match col {
            CollectionSuffix::Active => StoreState {
                active: if append {
                    self.active.pushed_back(item)
                } else {
                    self.active.pushed_front(item)
                },
                ..self
            },
            CollectionSuffix::Wait => StoreState {
                waiting: if append {
                    self.waiting.pushed_back(item)
                } else {
                    self.waiting.pushed_front(item)
                },
                ..self
            },
            CollectionSuffix::Paused => StoreState {
                paused: if append {
                    self.paused.pushed_back(item)
                } else {
                    self.paused.pushed_front(item)
                },
                ..self
            },
            CollectionSuffix::Completed => match score {
                Some(score) => StoreState {
                    completed: scored_ids::scored(self.completed, score as i128, item),
                    ..self
                },
                None => self,
            },
            CollectionSuffix::Failed => match score {
                Some(score) => StoreState {
                    failed: scored_ids::scored(self.failed, score as i128, item),
                    ..self
                },
                None => self,
            },
            CollectionSuffix::Prioritized => match score {
                Some(score) => StoreState {
                    prioritized: scored_ids::scored(self.prioritized, score as i128, item),
                    ..self
                },
                None => self,
            },
            CollectionSuffix::Delayed => match score {
                Some(score) => StoreState {
                    delayed: scored_ids::scored(self.delayed, score as i128, item),
                    ..self
                },
                None => self,
            },
            CollectionSuffix::Stalled => StoreState {
                stalled: id_set::with_id(self.stalled, item),
                ..self
            },
            _ => self,
        }
    }

    /// After every occurrence of `item` was removed from `col`.
    pub open spec fn item_removed(self, col: CollectionSuffix, item: u64) -> StoreState<
        D,
        R,
        P,
        M,
    > {
        match col {
            CollectionSuffix::Active => StoreState {
                active: self.active.with_items(sequences::without_id(self.active.items, item)),
                ..self
            },
            CollectionSuffix::Wait => StoreState {
                waiting: self.waiting.with_items(sequences::without_id(self.waiting.items, item)),
                ..self
            },
            CollectionSuffix::Paused => StoreState {
                paused: self.paused.with_items(sequences::without_id(self.paused.items, item)),
                ..self
            },
            CollectionSuffix::Completed => StoreState {
                completed: sequences::without_value(self.completed, item),
                ..self
            },
            CollectionSuffix::Failed => StoreState {
                failed: sequences::without_value(self.failed, item),
                ..self
            },
            CollectionSuffix::Prioritized => StoreState {
                prioritized: sequences::without_value(self.prioritized, item),
                ..self
            },
            CollectionSuffix::Delayed => StoreState {
                delayed: sequences::without_value(self.delayed, item),
                ..self
            },
            CollectionSuffix::Stalled => StoreState {
                stalled: sequences::without_id(self.stalled, item),
                ..self
            },
            CollectionSuffix::Job(_) => StoreState { jobs: self.jobs.without(key_of(col)), ..self },
            CollectionSuffix::Lock(_) => StoreState {
                locks: self.locks.without(key_of(col)),
                ..self
            },
            _ => self,
        }
    }

    /// After the collection `col` was deleted.
    pub open spec fn removed(self, col: CollectionSuffix) -> StoreState<D, R, P, M> {
        match col {
            CollectionSuffix::Active => StoreState { active: DequeState::fresh(), ..self },
            CollectionSuffix::Wait => StoreState { waiting: DequeState::fresh(), ..self },
            CollectionSuffix::Paused => StoreState { paused: DequeState::fresh(), ..self },
            CollectionSuffix::Completed => StoreState { completed: Seq::empty(), ..self },
            CollectionSuffix::Failed => StoreState { failed: Seq::empty(), ..self },
            CollectionSuffix::Prioritized => StoreState { prioritized: Seq::empty(), ..self },
            CollectionSuffix::Delayed => StoreState { delayed: Seq::empty(), ..self },
            CollectionSuffix::Stalled => StoreState { stalled: Seq::empty(), ..self },
            CollectionSuffix::Job(_) => StoreState { jobs: self.jobs.without(key_of(col)), ..self },
            CollectionSuffix::Lock(_) | CollectionSuffix::StalledCheck => StoreState {
                locks: self.locks.without(key_of(col)),
                ..self
            },
            _ => self,
        }
    }

    /// After every list and set was emptied; records and locks stay.
    pub open spec fn collections_cleared(self) -> StoreState<D, R, P, M> {
        StoreState {
            completed: Seq::empty(),
            failed: Seq::empty(),
            delayed: Seq::empty(),
            prioritized: Seq::empty(),
            stalled: Seq::empty(),
            waiting: DequeState::fresh(),
            paused: DequeState::fresh(),
            active: DequeState::fresh(),
            ..self
        }
    }

    /// The entries of a sorted set.
    pub open spec fn entries_of(self, col: CollectionSuffix) -> Option<Seq<(i128, u64)>> {
        match col {
            CollectionSuffix::Completed => Some(self.completed),
            CollectionSuffix::Failed => Some(self.failed),
            CollectionSuffix::Prioritized => Some(self.prioritized),
            CollectionSuffix::Delayed => Some(self.delayed),
            _ => None,
        }
    }

    /// The state with other entries in a sorted set.
    pub open spec fn with_entries_of(
        self,
        col: CollectionSuffix,
        entries: Seq<(i128, u64)>,
    ) -> StoreState<D, R, P, M> {
        match col {
            CollectionSuffix::Completed => StoreState { completed: entries, ..self },
            CollectionSuffix::Failed => StoreState { failed: entries, ..self },
            CollectionSuffix::Prioritized => StoreState { prioritized: entries, ..self },
            CollectionSuffix::Delayed => StoreState { delayed: entries, ..self },
            _ => self,
        }
    }

    /// The counts of the queue's jobs by state.
    pub open spec fn metrics(self) -> QueueMetrics {
        QueueMetrics {
            last_id: self.id_counter,
            processing: self.processing,
            active: self.active.items.len() as u64,
            stalled: self.stalled.len() as u64,
            completed: self.completed.len() as u64,
            delayed: self.delayed.len() as u64,
            prioritized: self.prioritized.len() as u64,
            paused: self.paused.items.len() as u64,
            failed: self.failed.len() as u64,
            waiting: self.waiting.items.len() as u64,
            is_paused: self.is_paused,
            event_mode: QueueEventMode::PubSub,
        }
    }

    /// A list.
    pub open spec fn list_of(self, col: CollectionSuffix) -> Option<DequeState> {
        match col {
            CollectionSuffix::Active => Some(self.active),
            CollectionSuffix::Wait => Some(self.waiting),
            CollectionSuffix::Paused => Some(self.paused),
            _ => None,
        }
    }

    /// The state with another list in place of one.
    pub open spec fn with_list(self, col: CollectionSuffix, list: DequeState) -> StoreState<
        D,
        R,
        P,
        M,
    > {
        match col {
            CollectionSuffix::Active => StoreState { active: list, ..self },
            CollectionSuffix::Wait => StoreState { waiting: list, ..self },
            CollectionSuffix::Paused => StoreState { paused: list, ..self },
            _ => self,
        }
    }

    /// `src` and `dst` are lists, and the first holds an id.
    pub open spec fn can_move(self, src: CollectionSuffix, dst: CollectionSuffix) -> bool {
        self.list_of(src) is Some && self.list_of(dst) is Some && self.ids_of(src).len() > 0
    }

    /// After the last id of the list `src` was moved to the front of the list
    /// `dst`.
    pub open spec fn last_moved(self, src: CollectionSuffix, dst: CollectionSuffix) -> StoreState<
        D,
        R,
        P,
        M,
    > {
        let from = self.list_of(src)->0;
        let taken = self.with_list(src, from.with_items(from.items.drop_last()));
        taken.with_list(dst, (taken.list_of(dst)->0).pushed_front(from.items.last()))
    }

    /// There is room to pause or to resume.
    pub open spec fn can_pause(self, pause: bool) -> bool {
        if pause {
            self.paused.back_room >= self.waiting.items.len()
        } else {
            self.waiting.back_room >= self.paused.items.len()
        }
    }

    /// After the queue was paused or resumed: the ids of the one list follow
    /// those of the other, in their order.
    pub open spec fn paused_or_resumed(self, pause: bool) -> StoreState<D, R, P, M> {
        if pause {
            StoreState {
                waiting: self.waiting.with_items(Seq::empty()),
                paused: DequeState {
                    items: self.paused.items + self.waiting.items,
                    back_room: (self.paused.back_room - self.waiting.items.len()) as nat,
                    ..self.paused
                },
                is_paused: true,
                ..self
            }
        } else {
            StoreState {
                paused: self.paused.with_items(Seq::empty()),
                waiting: DequeState {
                    items: self.waiting.items + self.paused.items,
                    back_room: (self.waiting.back_room - self.paused.items.len()) as nat,
                    ..self.waiting
                },
                is_paused: false,
                ..self
            }
        }
    }
}

} // verus!
