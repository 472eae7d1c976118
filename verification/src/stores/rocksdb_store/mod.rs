//! A store in a RocksDB database: what the stored bytes mean and how they
//! change.
pub mod collections;
pub mod insertion;
pub mod laws;
pub mod numbers;

use crate::error::KioResult;
use crate::events::parameters::millis_span;
use crate::events::QueueStreamEvent;
use crate::job::{Job, JobToken};
use crate::outside::lowercase::{self, to_lowercase};
use crate::queue::CollectionSuffix;
use crate::stores::inmemory_store::records;
use crate::stores::state;
use crate::stores::Lock;
use crate::timers::concurrent_timed_map::TimedState;
use crate::timers::TimedMap;
use crate::utils::parse::{self, has_word};
use crate::utils::text::same_text;
use collections::{exists_in, initial_collections, Change, Meta};
use numbers::{bump, number_bytes, stored_counter};
use vstd::prelude::*;

pub use numbers::ivec_to_number;

verus! {

/// The parts of a database that a queue is stored in.
#[derive(Debug, Clone, Copy, PartialEq, Eq, Structural)]
pub enum Tree {
    /// Collections and counters.
    Main,
    /// Jobs.
    Jobs,
}

/// Where a collection is stored.
pub fn tree_of(col: CollectionSuffix) -> (tree: Tree)
    ensures
        tree == if col is Job {
            Tree::Jobs
        } else {
            Tree::Main
        },
{
    match col {
        CollectionSuffix::Job(_) => Tree::Jobs,
        _ => Tree::Main,
    }
}

/// The names of a queue in a RocksDB database, and the locks of its jobs, which
/// are kept in memory.
pub struct RocksDbStore {
    /// The prefix, in lower case.
    pub prefix: String,
    /// The name of the queue, in lower case.
    pub name: String,
    /// The part of the database for collections and counters.
    pub main_tree: String,
    /// The part of the database for jobs.
    pub jobs: String,
    locks: TimedMap<Lock>,
}

/// What is in the store.
#[verifier::ext_equal]
pub struct RocksState {
    /// The prefix.
    pub prefix: Seq<char>,
    /// The name of the queue.
    pub name: Seq<char>,
    /// The part of the database for collections and counters.
    pub main_tree: Seq<char>,
    /// The part of the database for jobs.
    pub jobs: Seq<char>,
    /// Locks.
    pub locks: TimedState<Lock>,
}

impl View for RocksDbStore {
    type V = RocksState;

    closed spec fn view(&self) -> RocksState {
        RocksState {
            prefix: self.prefix@,
            name: self.name@,
            main_tree: self.main_tree@,
            jobs: self.jobs@,
            locks: self.locks@,
        }
    }
}

impl RocksDbStore {
    /// The locks are in order.
    pub closed spec fn wf(self) -> bool {
        self.locks.wf()
    }

    /// The names for the queue `name`. The prefix is `"kio"` where none is
    /// given.
    pub fn new(prefix: Option<&str>, name: &str) -> (store: Self)
        ensures
            store.wf(),
            ({
                let prefix = lowercase::lowercase(
                    match prefix {
                        Some(prefix) => prefix@,
                        None => "kio"@,
                    },
                );
                store@ == RocksState {
                    prefix,
                    name: lowercase::lowercase(name@),
                    main_tree: prefix + ":"@ + name@,
                    jobs: prefix + ":"@ + name@ + ":jobs"@,
                    locks: TimedState::fresh(),
                }
            }),
    {
        let prefix = match prefix {
            Some(prefix) => to_lowercase(prefix),
            None => to_lowercase("kio"),
        };
        let mut main_tree = prefix.clone();
        main_tree.append(":");
        main_tree.append(name);
        let mut jobs = main_tree.clone();
        jobs.append(":jobs");
        RocksDbStore { prefix, name: to_lowercase(name), main_tree, jobs, locks: TimedMap::new() }
    }

    /// Sets, or refreshes, the lock `col` at `now` for `lock_duration`
    /// milliseconds.
    pub fn set_lock_at(
        &mut self,
        col: CollectionSuffix,
        token: Option<JobToken>,
        lock_duration: u64,
        now: u128,
    )
        requires
            old(self).wf(),
            now + lock_duration * 1_000_000 <= u128::MAX,
        ensures
            final(self).wf(),
            final(self)@ == (RocksState {
                locks: old(self)@.locks.with_expirable(
                    state::key_of(col),
                    records::lock_with(token),
                    (now + lock_duration * 1_000_000) as u128,
                ),
                ..old(self)@
            }),
    {
        let lock = match token {
            Some(token) => Lock::Token(token),
            None => Lock::StallCheck,
        };
        self.locks.insert_expirable_at(
            col.tag() as u128,
            lock,
            millis_span(lock_duration),
            now,
        );
    }

    /// Sets, or refreshes, the lock `col` for `lock_duration` milliseconds.
    pub fn set_lock(&mut self, col: CollectionSuffix, token: Option<JobToken>, lock_duration: u64)
        requires
            old(self).wf(),
        ensures
            final(self).wf(),
            exists|now: u128|
                now + lock_duration * 1_000_000 <= u128::MAX && final(self)@ == (RocksState {
                    locks: #[trigger] old(self)@.locks.with_expirable(
                        state::key_of(col),
                        records::lock_with(token),
                        (now + lock_duration * 1_000_000) as u128,
                    ),
                    ..old(self)@
                }),
    {
        let now: u128 = self.locks.now();
        self.set_lock_at(col, token, lock_duration, now);
        assert(self@.locks == old(self)@.locks.with_expirable(
            state::key_of(col),
            records::lock_with(token),
            (now + lock_duration * 1_000_000) as u128,
        ));
    }

    /// The token that job `id` is locked with, if the lock has not expired at
    /// `now`.
    pub fn get_token_at(&mut self, id: u64, now: u128) -> (token: Option<JobToken>)
        requires
            old(self).wf(),
        ensures
            final(self).wf(),
            final(self)@ == (RocksState {
                locks: old(self)@.locks.visited(state::key_of(CollectionSuffix::Lock(id)), now),
                ..old(self)@
            }),
            token == if old(self)@.locks.live(state::key_of(CollectionSuffix::Lock(id)), now) {
                records::token_of(
                    old(self)@.locks.entries[state::key_of(CollectionSuffix::Lock(id))].value(),
                )
            } else {
                None
            },
    {
        match self.locks.get_at(CollectionSuffix::Lock(id).tag() as u128, now) {
            Some(Lock::Token(token)) => Some(*token),
            Some(Lock::StallCheck) => None,
            None => None,
        }
    }

    /// The token that job `id` is locked with.
    pub fn get_token(&mut self, id: u64) -> (token: Option<JobToken>)
        requires
            old(self).wf(),
        ensures
            final(self).wf(),
            exists|now: u128|
                final(self)@ == (RocksState {
                    locks: #[trigger] old(self)@.locks.visited(
                        state::key_of(CollectionSuffix::Lock(id)),
                        now,
                    ),
                    ..old(self)@
                }) && token == if old(self)@.locks.live(
                    state::key_of(CollectionSuffix::Lock(id)),
                    now,
                ) {
                    records::token_of(
                        old(self)@.locks.entries[state::key_of(
                            CollectionSuffix::Lock(id),
                        )].value(),
                    )
                } else {
                    None
                },
    {
        let now: u128 = self.locks.now();
        let token = self.get_token_at(id, now);
        assert(self@.locks == old(self)@.locks.visited(
            state::key_of(CollectionSuffix::Lock(id)),
            now,
        ));
        token
    }

    /// Whether the lock `col` is there and has not expired at `now`.
    pub fn lock_exists_at(&mut self, col: CollectionSuffix, now: u128) -> (found: bool)
        requires
            old(self).wf(),
        ensures
            final(self).wf(),
            found == old(self)@.locks.live(state::key_of(col), now),
            final(self)@ == (RocksState {
                locks: old(self)@.locks.visited(state::key_of(col), now),
                ..old(self)@
            }),
    {
        self.locks.contains_key_at(col.tag() as u128, now)
    }

    /// Whether `item` is in the collection `col` at `now`; `stored` is what is
    /// stored under its key. Locks are kept beside the database.
    pub fn exists_in_at(
        &mut self,
        col: CollectionSuffix,
        stored: Option<Vec<u8>>,
        item: u64,
        now: u128,
    ) -> (found: bool)
        requires
            old(self).wf(),
        ensures
            final(self).wf(),
            match col {
                CollectionSuffix::Lock(_) | CollectionSuffix::StalledCheck => found == old(
                    self,
                )@.locks.live(state::key_of(col), now) && final(self)@ == (RocksState {
                    locks: old(self)@.locks.visited(state::key_of(col), now),
                    ..old(self)@
                }),
                CollectionSuffix::Job(_) => found == stored is Some && final(self)@ == old(self)@,
                _ => found == collections::ids_in(col, stored).contains(item) && final(self)@
                    == old(self)@,
            },
    {
        match col {
            CollectionSuffix::Lock(_) | CollectionSuffix::StalledCheck => self.lock_exists_at(
                col,
                now,
            ),
            CollectionSuffix::Job(_) => stored.is_some(),
            _ => exists_in(col, stored, item),
        }
    }

    /// Removes every lock, and gives what is to be stored so that no collection
    /// has anything in it: each as in a new queue, and no list of paused jobs and
    /// no metadata.
    pub fn clear_collections(&mut self) -> (changes: KioResult<Vec<(CollectionSuffix, Change)>>)
        requires
            old(self).wf(),
        ensures
            final(self).wf(),
            final(self)@ == (RocksState {
                locks: TimedState { entries: Map::empty(), ..old(self)@.locks },
                ..old(self)@
            }),
            changes matches Ok(changes) && collections::empties(changes@),
    {
        self.clear_locks();
        let values = initial_collections()?;
        let ghost initial = values@;
        let mut changes: Vec<(CollectionSuffix, Change)> = Vec::new();
        let mut values = values;
        let mut backward: Vec<(CollectionSuffix, Vec<u8>)> = Vec::new();
        while values.len() > 0
            invariant
                values@ + backward@.reverse() =~= initial,
            decreases values.len(),
        {
            if let Some(value) = values.pop() {
                backward.push(value);
            }
        }
        assert(backward@.reverse() =~= initial);
        while backward.len() > 0
            invariant
                changes@.len() + backward@.len() == initial.len(),
                backward@ =~= initial.skip(changes@.len() as int).reverse(),
                forall|i: int|
                    0 <= i < changes@.len() ==> (#[trigger] changes@[i]).0 == initial[i].0
                        && changes@[i].1 == Change::Put(initial[i].1),
            decreases backward.len(),
        {
            if let Some((col, value)) = backward.pop() {
                changes.push((col, Change::Put(value)));
            }
        }
        changes.push((CollectionSuffix::Paused, Change::Delete));
        changes.push((CollectionSuffix::Meta, Change::Delete));
        Ok(changes)
    }

    /// The time now, for the operations on locks that take it.
    pub fn now_for_locks(&self) -> (now: u128)
        ensures
            now < 0x1_0000_0000_0000_0000 * crate::time::NANOS_PER_SEC,
    {
        self.locks.now()
    }

    /// Removes the lock `col`.
    pub fn remove_lock(&mut self, col: CollectionSuffix)
        requires
            old(self).wf(),
        ensures
            final(self).wf(),
            final(self)@ == (RocksState {
                locks: old(self)@.locks.without(state::key_of(col)),
                ..old(self)@
            }),
    {
        self.locks.remove(col.tag() as u128);
    }

    /// Removes every lock.
    pub fn clear_locks(&mut self)
        requires
            old(self).wf(),
        ensures
            final(self).wf(),
            final(self)@ == (RocksState {
                locks: TimedState { entries: Map::empty(), ..old(self)@.locks },
                ..old(self)@
            }),
    {
        self.locks.clear();
    }

    /// Removes the locks that have expired at `now`.
    pub fn purge_expired_at(&mut self, now: u128)
        requires
            old(self).wf(),
        ensures
            final(self).wf(),
            final(self)@ == (RocksState { locks: old(self)@.locks.purged(now), ..old(self)@ }),
    {
        self.locks.purge_expired_at(now);
    }
}

/// The counter of a job that a field names, after `delta` was added, is
/// written; nothing where there is no such counter, or no such number.
pub fn incr_job<D, R, P>(job: &mut Job<D, R, P>, field: &str, delta: i64) -> (next: Option<u64>)
    ensures
        match state::JobCounter::of_field(field@) {
            Some(state::JobCounter::AttemptsMade) => match next {
                Some(next) => next == old(job).attempts_made + delta && *final(job) == (Job {
                    attempts_made: next,
                    ..*old(job)
                }),
                None => !(0 <= old(job).attempts_made + delta <= u64::MAX) && *final(job) == *old(
                    job,
                ),
            },
            Some(state::JobCounter::StalledCounter) => match next {
                Some(next) => next == old(job).stalled_counter + delta && *final(job) == (Job {
                    stalled_counter: next,
                    ..*old(job)
                }),
                None => !(0 <= old(job).stalled_counter + delta <= u64::MAX) && *final(job)
                    == *old(job),
            },
            None => next == Some(0u64) && *final(job) == *old(job),
        },
{
    if same_text(field, "attempts_made") || same_text(field, "attemptsMade") {
        let next = bump(job.attempts_made, delta);
        if let Some(next) = next {
            job.attempts_made = next;
        }
        next
    } else if same_text(field, "stalled_counter") || same_text(field, "stalledCounter") {
        let next = bump(job.stalled_counter, delta);
        if let Some(next) = next {
            job.stalled_counter = next;
        }
        next
    } else {
        Some(0)
    }
}

/// A processing count after `delta` was added; it does not fall below zero. Nothing
/// where that is no `u64`.
pub open spec fn processing_after(count: u64, delta: i64) -> Option<u64> {
    let sum = count + delta;
    if sum > u64::MAX {
        None
    } else if sum < 0 {
        Some(0)
    } else {
        Some(sum as u64)
    }
}

/// Adds `delta` to the processing count, which does not fall below zero.
/// Nothing where that is no `u64`.
pub fn incr_processing(meta: &mut Meta, delta: i64) -> (next: Option<u64>)
    ensures
        next == processing_after(old(meta).processing, delta),
        match next {
            Some(count) => *final(meta) == (Meta { processing: count, ..*old(meta) }),
            None => *final(meta) == *old(meta),
        },
{
    match bump(meta.processing, delta) {
        Some(next) => {
            meta.processing = next;
            Some(next)
        },
        None => if delta < 0 {
            meta.processing = 0;
            Some(0)
        } else {
            None
        },
    }
}

/// The counter of a job that a field names: the attempts, where the name says
/// so whatever the case of its letters, or else how often the job stalled.
pub fn job_counter<D, R, P>(job: &Job<D, R, P>, field: &str) -> (value: u64)
    ensures
        value == if parse::contains_word(lowercase::lowercase(field@), "attempts"@) {
            job.attempts_made
        } else {
            job.stalled_counter
        },
{
    let lower = to_lowercase(field);
    if has_word(lower.as_str(), "attempts") {
        job.attempts_made
    } else {
        job.stalled_counter
    }
}

/// What is written when a counter was added to.
pub enum CounterWrite<D, R, P> {
    /// The record of this job.
    Record(u64, Job<D, R, P>),
    /// The metadata of the queue.
    Metadata(Meta),
    /// The bytes under the counter's own key.
    Stored(Vec<u8>),
}

/// Adds `delta` to a counter: the counter of a job that a field names, where
/// there is a record of the job; the processing count, for any field of the
/// metadata; else the counter that is stored under its own key. `record`, `meta`
/// and `stored` are what is stored of the three. Gives the new value and what is
/// written; nothing where the value is no `u64`.
pub fn incr<D, R, P>(
    key: CollectionSuffix,
    delta: i64,
    field: Option<&str>,
    record: Option<Job<D, R, P>>,
    meta: Option<Meta>,
    stored: Option<Vec<u8>>,
) -> (written: Option<(u64, CounterWrite<D, R, P>)>)
    ensures
        match (field, key, record) {
            (Some(field), CollectionSuffix::Job(id), Some(job)) => match state::JobCounter::of_field(
                field@,
            ) {
                Some(counter) => {
                    let sum = counter.value_in(job) + delta;
                    if 0 <= sum <= u64::MAX {
                        written == Some(
                            (
                                sum as u64,
                                CounterWrite::Record(id, counter.set_in(job, sum as u64)),
                            ),
                        )
                    } else {
                        written is None
                    }
                },
                None => written == Some((0u64, CounterWrite::Record(id, job))),
            },
            (Some(_), CollectionSuffix::Meta, _) => {
                let before = meta_or_fresh(meta);
                let sum = before.processing + delta;
                if sum > u64::MAX {
                    written is None
                } else {
                    let count = if sum < 0 {
                        0
                    } else {
                        sum as u64
                    };
                    written == Some(
                        (
                            count,
                            CounterWrite::<D, R, P>::Metadata(Meta { processing: count, ..before }),
                        ),
                    )
                }
            },
            _ => {
                let sum = numbers::count_in(stored) + delta;
                match written {
                    Some((next, CounterWrite::Stored(bytes))) => next == sum && bytes@.len() == 8
                        && numbers::stored_count(bytes@) == sum,
                    Some(_) => false,
                    None => !(0 <= sum <= u64::MAX),
                }
            },
        },
{
    if let Some(field) = field {
        match (key, record) {
            (CollectionSuffix::Job(id), Some(job)) => {
                let mut job = job;
                return match incr_job(&mut job, field, delta) {
                    Some(next) => Some((next, CounterWrite::Record(id, job))),
                    None => None,
                };
            },
            (CollectionSuffix::Meta, _) => {
                let mut meta = match meta {
                    Some(meta) => meta,
                    None => Meta::default(),
                };
                return match incr_processing(&mut meta, delta) {
                    Some(next) => Some((next, CounterWrite::Metadata(meta))),
                    None => None,
                };
            },
            _ => {},
        }
    }
    let counter: u64 = match &stored {
        Some(bytes) => stored_counter(bytes.as_slice()),
        None => 0,
    };
    match bump(counter, delta) {
        Some(next) => Some((next, CounterWrite::Stored(number_bytes(next)))),
        None => None,
    }
}

/// The value of a counter, kept as for [`incr`]; none where it is not stored. A
/// field of any other collection than a job stands for the processing count.
pub fn get_counter<D, R, P>(
    key: CollectionSuffix,
    field: Option<&str>,
    record: Option<&Job<D, R, P>>,
    meta: Option<Meta>,
    stored: Option<Vec<u8>>,
) -> (value: Option<u64>)
    ensures
        value == match (field, key) {
            (Some(field), CollectionSuffix::Job(_)) => match record {
                Some(job) => Some(
                    if parse::contains_word(lowercase::lowercase(field@), "attempts"@) {
                        job.attempts_made
                    } else {
                        job.stalled_counter
                    },
                ),
                None => None,
            },
            (Some(_), _) => match meta {
                Some(meta) => Some(meta.processing),
                None => None,
            },
            (None, _) => match stored {
                Some(bytes) => Some(numbers::stored_count(bytes@)),
                None => None,
            },
        },
{
    match (field, key) {
        (Some(field), CollectionSuffix::Job(_)) => match record {
            Some(job) => Some(job_counter(job, field)),
            None => None,
        },
        (Some(_), _) => match meta {
            Some(meta) => Some(meta.processing),
            None => None,
        },
        (None, _) => match &stored {
            Some(bytes) => Some(stored_counter(bytes.as_slice())),
            None => None,
        },
    }
}

/// The stored metadata, or those of a new queue.
pub open spec fn meta_or_fresh(meta: Option<Meta>) -> Meta {
    match meta {
        Some(meta) => meta,
        None => Meta { processing: 0, paused: false },
    }
}

/// Whether the stored metadata have a field: the processing count where there are
/// any, the pause flag while the queue is paused.
pub fn metadata_field_exists(meta: Option<Meta>, field: &str) -> (exists_: bool)
    ensures
        exists_ == (meta is Some && (field@ == "processing"@ || (field@ == "paused"@
            && meta->0.paused))),
{
    match meta {
        Some(meta) => same_text(field, "processing") || (same_text(field, "paused")
            && meta.paused),
        None => false,
    }
}

/// Reports progress of a job: the job has it, and so has its record, which is
/// given to be stored, where there is one.
pub fn update_job_progress<D, R, P: Clone>(
    stored: Option<Job<D, R, P>>,
    job: &mut Job<D, R, P>,
    value: P,
) -> (record: Option<Job<D, R, P>>)
    ensures
        *final(job) == (Job { progress: Some(value), ..*old(job) }),
        match stored {
            Some(stored) => exists|copy: P| #[trigger]
                cloned(value, copy) && record == Some(Job { progress: Some(copy), ..stored }),
            None => record is None,
        },
{
    let record = match stored {
        Some(stored) => {
            let mut record = stored;
            let copy = value.clone();
            assert(cloned(value, copy));
            record.progress = Some(copy);
            Some(record)
        },
        None => None,
    };
    job.progress = Some(value);
    record
}

/// The list that is moved when the queue is paused or resumed.
pub fn paused_source(pause: bool) -> (source: CollectionSuffix)
    ensures
        source == if pause {
            CollectionSuffix::Wait
        } else {
            CollectionSuffix::Paused
        },
{
    if pause {
        CollectionSuffix::Wait
    } else {
        CollectionSuffix::Paused
    }
}

/// What is stored when the queue is paused or resumed.
#[derive(Debug)]
pub struct PauseChange<R, P> {
    /// The list that is moved.
    pub source: CollectionSuffix,
    /// Where it is moved to.
    pub target: CollectionSuffix,
    /// What is stored there; nothing where there was no list.
    pub moved: Option<Vec<u8>>,
    /// The metadata.
    pub meta: Meta,
    /// The event to publish.
    pub event: QueueStreamEvent<R, P>,
}

/// Pauses the queue, or resumes it: the stored list of waiting jobs becomes
/// that of the paused ones, or the other way round, and the metadata say so.
pub fn pause_or_resume<R, P>(pause: bool, stored_source: Option<Vec<u8>>, meta: Option<Meta>) -> (change:
    PauseChange<R, P>)
    ensures
        change.source == if pause {
            CollectionSuffix::Wait
        } else {
            CollectionSuffix::Paused
        },
        change.target == if pause {
            CollectionSuffix::Paused
        } else {
            CollectionSuffix::Wait
        },
        change.moved == stored_source,
        change.meta == (Meta {
            processing: match meta {
                Some(meta) => meta.processing,
                None => 0,
            },
            paused: pause,
        }),
        change.event == QueueStreamEvent::<R, P>::pause_told(pause, change.event.id),
{
    let mut meta = match meta {
        Some(meta) => meta,
        None => Meta::default(),
    };
    meta.paused = pause;
    PauseChange {
        source: paused_source(pause),
        target: paused_source(!pause),
        moved: stored_source,
        meta,
        event: QueueStreamEvent::pause_event(pause),
    }
}

} // verus!
