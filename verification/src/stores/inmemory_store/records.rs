//! Job records, locks and metrics: everything that can expire.
//!
//! Each operation that depends on the time comes twice: as a function of the
//! time, and with the clock read.
use super::{store_key, InMemoryStore};
use crate::events::parameters::millis_span;
use crate::job::record;
use crate::job::{Job, JobState, JobToken};
use crate::outside::lowercase::{self, to_lowercase};
use crate::queue::{CollectionSuffix, JobField, ProcessedResult};
use crate::stores::state::{self, JobCounter, StoreState};
use crate::stores::Lock;
use crate::time::{Dt, TimeSpan, NANOS_PER_SEC};
use crate::timers::concurrent_timed_map::{self, TimedState};
use crate::utils::sequences;
use crate::utils::text::{self, same_text};
use vstd::prelude::*;

verus! {

/// The token that a lock is held with.
pub open spec fn token_of(lock: Lock) -> Option<JobToken> {
    match lock {
        Lock::Token(token) => Some(token),
        Lock::StallCheck => None,
    }
}

/// The lock that is set with a token, or for the check of stalled jobs.
pub open spec fn lock_with(token: Option<JobToken>) -> Lock {
    match token {
        Some(token) => Lock::Token(token),
        None => Lock::StallCheck,
    }
}

/// The absolute value of `secs`.
pub open spec fn magnitude(secs: i64) -> u64 {
    if secs < 0 {
        (-(secs as int)) as u64
    } else {
        secs as u64
    }
}

/// The absolute value of `secs`.
fn unsigned_abs(secs: i64) -> (abs: u64)
    ensures
        abs == magnitude(secs),
{
    if secs >= 0 {
        secs as u64
    } else {
        (-(secs as i128)) as u64
    }
}

/// The key of a job's record.
pub open spec fn job_key(id: u64) -> u128 {
    state::key_of(CollectionSuffix::Job(id))
}

/// The key of a job's lock.
pub open spec fn lock_key(id: u64) -> u128 {
    state::key_of(CollectionSuffix::Lock(id))
}

/// Holds of the jobs that have a live record at `now`.
pub open spec fn has_record<D, R, P>(jobs: TimedState<Job<D, R, P>>, now: u128) -> spec_fn(
    u64,
) -> bool {
    |id: u64| jobs.live(job_key(id), now)
}

/// After the records of `ids` were looked at at `now`, one after the other.
pub open spec fn visited_all<D, R, P>(
    jobs: TimedState<Job<D, R, P>>,
    ids: Seq<u64>,
    now: u128,
) -> TimedState<Job<D, R, P>>
    decreases ids.len(),
{
    if ids.len() == 0 {
        jobs
    } else {
        visited_all(jobs, ids.drop_last(), now).visited(job_key(ids.last()), now)
    }
}

/// Whether `item` is in `col` was asked at `now`, and answered.
pub open spec fn found_in<D, R, P, M>(
    before: StoreState<D, R, P, M>,
    col: CollectionSuffix,
    item: u64,
    now: u128,
    found: bool,
    after: StoreState<D, R, P, M>,
) -> bool {
    match col {
        CollectionSuffix::Job(_) => found == before.jobs.live(state::key_of(col), now) && after == (
        StoreState { jobs: before.jobs.visited(state::key_of(col), now), ..before }),
        CollectionSuffix::Lock(_) | CollectionSuffix::StalledCheck => found == before.locks.live(
            state::key_of(col),
            now,
        ) && after == (StoreState {
            locks: before.locks.visited(state::key_of(col), now),
            ..before
        }),
        _ => found == before.ids_of(col).contains(item) && after == before,
    }
}

/// Fields of the record of a job were updated at `now`, where it has one.
pub open spec fn fields_stored<D, R, P, M>(
    before: StoreState<D, R, P, M>,
    job_id: u64,
    fields: Seq<JobField<R>>,
    now: u128,
    after: StoreState<D, R, P, M>,
) -> bool {
    if before.jobs.live(job_key(job_id), now) {
        exists|job: Job<D, R, P>| #[trigger]
            state::fields_applied(before.jobs.entries[job_key(job_id)].value(), fields, job)
                && after == (StoreState {
                jobs: before.jobs.with_replaced(job_key(job_id), job),
                ..before
            })
    } else {
        after == (StoreState { jobs: before.jobs.visited(job_key(job_id), now), ..before })
    }
}

/// Progress was reported at `now`: a job with an id takes it over, and so does
/// its record, where it has one.
pub open spec fn progress_reported<D, R, P: Clone, M>(
    before: StoreState<D, R, P, M>,
    job: Job<D, R, P>,
    value: P,
    now: u128,
    after: StoreState<D, R, P, M>,
    job_after: Job<D, R, P>,
) -> bool {
    match job.id {
        None => job_after == job && after == before,
        Some(id) => job_after == (Job { progress: Some(value), ..job }) && if before.jobs.live(
            job_key(id),
            now,
        ) {
            exists|copy: P| #[trigger]
                cloned(value, copy) && after == (StoreState {
                    jobs: before.jobs.with_replaced(
                        job_key(id),
                        Job {
                            progress: Some(copy),
                            ..before.jobs.entries[job_key(id)].value()
                        },
                    ),
                    ..before
                })
        } else {
            after == (StoreState { jobs: before.jobs.visited(job_key(id), now), ..before })
        },
    }
}

/// After a lock or a job record was given the expiry `expires_at`.
pub open spec fn expiring<D, R, P, M>(
    before: StoreState<D, R, P, M>,
    col: CollectionSuffix,
    expires_at: u128,
) -> StoreState<D, R, P, M> {
    match col {
        CollectionSuffix::Lock(_) | CollectionSuffix::StalledCheck => StoreState {
            locks: before.locks.with_expiry(state::key_of(col), expires_at),
            ..before
        },
        CollectionSuffix::Job(_) => StoreState {
            jobs: before.jobs.with_expiry(state::key_of(col), expires_at),
            ..before
        },
        _ => before,
    }
}

/// `delta` was added to a counter at `now`, and `next` is its new value.
pub open spec fn incremented<D, R, P, M>(
    before: StoreState<D, R, P, M>,
    key: CollectionSuffix,
    delta: i64,
    hash_key: Option<Seq<char>>,
    now: u128,
    next: u64,
    after: StoreState<D, R, P, M>,
) -> bool {
    match key {
        CollectionSuffix::Id => next == state::bumped(before.id_counter, delta) && after == (
        StoreState { id_counter: next, ..before }),
        CollectionSuffix::PriorityCounter => next == state::bumped(before.priority_counter, delta)
            && after == (StoreState { priority_counter: next, ..before }),
        CollectionSuffix::Meta => next == state::bumped(before.processing, delta) && after == (
        StoreState { processing: next, ..before }),
        CollectionSuffix::Job(_) => match hash_key {
            None => next == 0 && after == before,
            Some(field) => if before.jobs.live(state::key_of(key), now) {
                let job = before.jobs.entries[state::key_of(key)].value();
                match JobCounter::of_field(field) {
                    Some(counter) => next == state::bumped_job_counter(
                        counter.value_in(job),
                        delta,
                    ) && after == (StoreState {
                        jobs: before.jobs.with_replaced(
                            state::key_of(key),
                            counter.set_in(job, next),
                        ),
                        ..before
                    }),
                    None => next == 0 && after == before,
                }
            } else {
                next == 0 && after == (StoreState {
                    jobs: before.jobs.visited(state::key_of(key), now),
                    ..before
                })
            },
        },
        _ => next == 0 && after == before,
    }
}

/// The text in lower case, where there is one.
pub open spec fn lowered(text: Option<&str>) -> Option<Seq<char>> {
    match text {
        Some(text) => Some(lowercase::lowercase(text@)),
        None => None,
    }
}

/// `value` is the value of a counter at `now`; `lower` is the name of a job's
/// counter in lower case.
pub open spec fn counter_read<D, R, P, M>(
    before: StoreState<D, R, P, M>,
    key: CollectionSuffix,
    lower: Option<Seq<char>>,
    now: u128,
    value: Option<u64>,
    after: StoreState<D, R, P, M>,
) -> bool {
    match key {
        CollectionSuffix::Id => value == Some(before.id_counter) && after == before,
        CollectionSuffix::PriorityCounter => value == Some(before.priority_counter) && after
            == before,
        CollectionSuffix::Meta => value == Some(before.processing) && after == before,
        CollectionSuffix::Job(_) => match lower {
            None => value is None && after == before,
            Some(lower) => after == (StoreState {
                jobs: before.jobs.visited(state::key_of(key), now),
                ..before
            }) && value == if before.jobs.live(state::key_of(key), now) {
                counter_named(before.jobs.entries[state::key_of(key)].value(), lower)
            } else {
                None
            },
        },
        _ => value is None && after == before,
    }
}

/// Looking at records does not change which are live, nor what they hold.
proof fn lemma_visited_all<D, R, P>(
    jobs: TimedState<Job<D, R, P>>,
    ids: Seq<u64>,
    now: u128,
    key: u128,
)
    ensures
        visited_all(jobs, ids, now).live(key, now) == jobs.live(key, now),
        jobs.live(key, now) ==> visited_all(jobs, ids, now).entries[key] == jobs.entries[key],
        visited_all(jobs, ids, now).disabled == jobs.disabled,
    decreases ids.len(),
{
    if ids.len() > 0 {
        lemma_visited_all(jobs, ids.drop_last(), now, key);
    }
}

/// Updates one field of a job record.
fn apply_field<D, R, P>(job: &mut Job<D, R, P>, field: JobField<R>)
    ensures
        state::field_applied(*old(job), field, *final(job)),
{
    match field {
        JobField::BackTrace(trace) => job.stack_trace.push(trace),
        JobField::State(state) => job.state = state,
        JobField::ProcessedOn(ts) => job.processed_on = Dt::from_timestamp_micros(ts as i64),
        JobField::FinishedOn(ts) => job.finished_on = Dt::from_timestamp_micros(ts as i64),
        JobField::Token(token) => job.token = Some(token),
        JobField::Payload(processed_result) => match processed_result {
            ProcessedResult::Failed(details) => job.failed_reason = Some(details),
            ProcessedResult::Success(result, _) => job.returned_value = Some(result),
        },
    }
}

/// Updates the fields of a job record, one after the other.
pub fn apply_fields<D, R, P>(job: &mut Job<D, R, P>, fields: Vec<JobField<R>>)
    ensures
        state::fields_applied(*old(job), fields@, *final(job)),
{
    let ghost all = fields@;
    let ghost first = *job;
    let mut fields = fields;
    let mut rest: Vec<JobField<R>> = Vec::new();
    while fields.len() > 0
        invariant
            fields@ + rest@.reverse() =~= all,
        decreases fields.len(),
    {
        if let Some(field) = fields.pop() {
            rest.push(field);
        }
    }
    assert(rest@.reverse() =~= all);
    assert(all.take(0) =~= Seq::empty());
    while rest.len() > 0
        invariant
            rest@.len() <= all.len(),
            rest@ =~= all.skip(all.len() - rest@.len()).reverse(),
            state::fields_applied(first, all.take(all.len() - rest@.len()), *job),
        decreases rest.len(),
    {
        let ghost before = rest@;
        let ghost mid = *job;
        if let Some(field) = rest.pop() {
            let ghost i = all.len() - before.len();
            assert(before[before.len() - 1] == all[i]);
            apply_field(job, field);
            proof {
                assert(all.take(i + 1).drop_last() =~= all.take(i));
                assert(all.take(i + 1).last() == field);
                assert(state::fields_applied(first, all.take(i + 1).drop_last(), mid));
                assert(state::field_applied(mid, all.take(i + 1).last(), *job));
                assert(state::fields_applied(first, all.take(i + 1), *job));
                assert(all.len() - rest@.len() == i + 1);
            }
        }
    }
    assert(all.take(all.len() as int) =~= all);
}

impl<D, R, P, M> InMemoryStore<D, R, P, M> {
    /// A copy of the record of job `id`, if it has not expired at `now`.
    pub fn get_job_at(&mut self, id: u64, now: u128) -> (job: Option<Job<D, R, P>>) where
        D: Clone,
        R: Clone,
        P: Clone,

        requires
            old(self).wf(),
        ensures
            final(self).wf(),
            final(self)@ == (StoreState {
                jobs: old(self)@.jobs.visited(job_key(id), now),
                ..old(self)@
            }),
            match job {
                Some(job) => old(self)@.jobs.live(job_key(id), now) && job.copy_of(
                    old(self)@.jobs.entries[job_key(id)].value(),
                ),
                None => !old(self)@.jobs.live(job_key(id), now),
            },
    {
        match self.jobs.get_at(store_key(CollectionSuffix::Job(id)), now) {
            Some(job) => Some(job.clone()),
            None => None,
        }
    }

    /// A copy of the record of job `id`.
    pub fn get_job(&mut self, id: u64) -> (job: Option<Job<D, R, P>>) where
        D: Clone,
        R: Clone,
        P: Clone,

        requires
            old(self).wf(),
        ensures
            final(self).wf(),
            exists|now: u128|
                final(self)@ == (StoreState {
                    jobs: #[trigger] old(self)@.jobs.visited(job_key(id), now),
                    ..old(self)@
                }) && match job {
                    Some(job) => old(self)@.jobs.live(job_key(id), now) && job.copy_of(
                        old(self)@.jobs.entries[job_key(id)].value(),
                    ),
                    None => !old(self)@.jobs.live(job_key(id), now),
                },
    {
        let now: u128 = self.jobs.now();
        let job = self.get_job_at(id, now);
        assert(self@.jobs == old(self)@.jobs.visited(job_key(id), now));
        job
    }

    /// The state of job `id`, if its record has not expired at `now`.
    pub fn get_state_at(&mut self, id: u64, now: u128) -> (state: Option<JobState>)
        requires
            old(self).wf(),
        ensures
            final(self).wf(),
            final(self)@ == (StoreState {
                jobs: old(self)@.jobs.visited(job_key(id), now),
                ..old(self)@
            }),
            state == if old(self)@.jobs.live(job_key(id), now) {
                Some(old(self)@.jobs.entries[job_key(id)].value().state)
            } else {
                None
            },
    {
        match self.jobs.get_at(store_key(CollectionSuffix::Job(id)), now) {
            Some(job) => Some(job.state),
            None => None,
        }
    }

    /// Whether job `id` has a record that has not expired at `now`.
    pub fn job_exists_at(&mut self, id: u64, now: u128) -> (found: bool)
        requires
            old(self).wf(),
        ensures
            final(self).wf(),
            final(self)@ == (StoreState {
                jobs: old(self)@.jobs.visited(job_key(id), now),
                ..old(self)@
            }),
            found == old(self)@.jobs.live(job_key(id), now),
    {
        self.exists_in_at(CollectionSuffix::Job(id), id, now)
    }

    /// Copies of the records of `ids` that have not expired at `now`, in the
    /// order of `ids`.
    pub fn fetch_jobs_at(&mut self, ids: &Vec<u64>, now: u128) -> (jobs: Vec<Job<D, R, P>>) where
        D: Clone,
        R: Clone,
        P: Clone,

        requires
            old(self).wf(),
        ensures
            final(self).wf(),
            final(self)@ == (StoreState {
                jobs: visited_all(old(self)@.jobs, ids@, now),
                ..old(self)@
            }),
            jobs@.len() == ids@.filter(has_record(old(self)@.jobs, now)).len(),
            forall|i: int|
                0 <= i < jobs@.len() ==> (#[trigger] jobs@[i]).copy_of(
                    old(self)@.jobs.entries[job_key(
                        ids@.filter(has_record(old(self)@.jobs, now))[i],
                    )].value(),
                ),
    {
        let ghost before = self@;
        let ghost found = has_record(self@.jobs, now);
        let mut jobs: Vec<Job<D, R, P>> = Vec::new();
        let mut i: usize = 0;
        proof {
            assert(ids@.take(0) =~= Seq::empty());
            reveal(Seq::filter);
        }
        while i < ids.len()
            invariant
                self.wf(),
                i <= ids.len(),
                found == has_record(before.jobs, now),
                self@ == (StoreState {
                    jobs: visited_all(before.jobs, ids@.take(i as int), now),
                    ..before
                }),
                jobs@.len() == ids@.take(i as int).filter(found).len(),
                forall|j: int|
                    0 <= j < jobs@.len() ==> (#[trigger] jobs@[j]).copy_of(
                        before.jobs.entries[job_key(
                            ids@.take(i as int).filter(found)[j],
                        )].value(),
                    ),
            decreases ids.len() - i,
        {
            let id: u64 = ids[i];
            let ghost seen = ids@.take(i as int);
            let ghost had = jobs@;
            proof {
                lemma_visited_all(before.jobs, seen, now, job_key(id));
                sequences::lemma_filter_step(ids@, i as int, found);
                assert(ids@.take(i as int + 1).drop_last() =~= seen);
            }
            if let Some(job) = self.get_job_at(id, now) {
                jobs.push(job);
            }
            i += 1;
            proof {
                let kept = ids@.take(i as int).filter(found);
                assert forall|j: int| 0 <= j < jobs@.len() implies (#[trigger] jobs@[j]).copy_of(
                    before.jobs.entries[job_key(kept[j])].value(),
                ) by {
                    if j < had.len() {
                        assert(had[j] == jobs@[j]);
                        assert(kept[j] == seen.filter(found)[j]);
                    }
                }
            }
        }
        assert(ids@.take(ids@.len() as int) =~= ids@);
        jobs
    }

    /// The token that job `id` is locked with, if the lock has not expired at
    /// `now`.
    pub fn get_token_at(&mut self, id: u64, now: u128) -> (token: Option<JobToken>)
        requires
            old(self).wf(),
        ensures
            final(self).wf(),
            final(self)@ == (StoreState {
                locks: old(self)@.locks.visited(lock_key(id), now),
                ..old(self)@
            }),
            token == if old(self)@.locks.live(lock_key(id), now) {
                token_of(old(self)@.locks.entries[lock_key(id)].value())
            } else {
                None
            },
    {
        match self.locks.get_at(store_key(CollectionSuffix::Lock(id)), now) {
            Some(Lock::Token(token)) => Some(*token),
            Some(Lock::StallCheck) => None,
            None => None,
        }
    }

    /// The token that job `id` is locked with.
    pub fn get_token(&mut self, id: u64) -> (token: Option<JobToken>)
        requires
            old(self).wf(),
        ensures
            final(self).wf(),
            exists|now: u128|
                final(self)@ == (StoreState {
                    locks: #[trigger] old(self)@.locks.visited(lock_key(id), now),
                    ..old(self)@
                }) && token == if old(self)@.locks.live(lock_key(id), now) {
                    token_of(old(self)@.locks.entries[lock_key(id)].value())
                } else {
                    None
                },
    {
        let now: u128 = self.locks.now();
        let token = self.get_token_at(id, now);
        assert(self@.locks == old(self)@.locks.visited(lock_key(id), now));
        token
    }

    /// Sets, or refreshes, the lock `col` at `now` for `lock_duration`
    /// milliseconds.
    pub fn set_lock_at(
        &mut self,
        col: CollectionSuffix,
        token: Option<JobToken>,
        lock_duration: u64,
        now: u128,
    )
        requires
            old(self).wf(),
            now + lock_duration * 1_000_000 <= u128::MAX,
        ensures
            final(self).wf(),
            final(self)@ == (StoreState {
                locks: old(self)@.locks.with_expirable(
                    state::key_of(col),
                    lock_with(token),
                    (now + lock_duration * 1_000_000) as u128,
                ),
                ..old(self)@
            }),
    {
        let lock = match token {
            Some(token) => Lock::Token(token),
            None => Lock::StallCheck,
        };
        self.locks.insert_expirable_at(store_key(col), lock, millis_span(lock_duration), now);
    }

    /// Sets, or refreshes, the lock `col` for `lock_duration` milliseconds.
    pub fn set_lock(&mut self, col: CollectionSuffix, token: Option<JobToken>, lock_duration: u64)
        requires
            old(self).wf(),
        ensures
            final(self).wf(),
            exists|now: u128|
                now + lock_duration * 1_000_000 <= u128::MAX && final(self)@ == (StoreState {
                    locks: #[trigger] old(self)@.locks.with_expirable(
                        state::key_of(col),
                        lock_with(token),
                        (now + lock_duration * 1_000_000) as u128,
                    ),
                    ..old(self)@
                }),
    {
        let now: u128 = self.locks.now();
        self.set_lock_at(col, token, lock_duration, now);
        assert(self@.locks == old(self)@.locks.with_expirable(
            state::key_of(col),
            lock_with(token),
            (now + lock_duration * 1_000_000) as u128,
        ));
    }

    /// Lets a lock or a job record expire `secs` seconds after `now`, counted
    /// without sign; nothing else expires.
    pub fn expire_at(&mut self, col: CollectionSuffix, secs: i64, now: u128)
        requires
            old(self).wf(),
            now + magnitude(secs) * NANOS_PER_SEC <= u128::MAX,
        ensures
            final(self).wf(),
            final(self)@ == expiring(
                old(self)@,
                col,
                (now + magnitude(secs) * NANOS_PER_SEC) as u128,
            ),
    {
        let duration = TimeSpan { secs: unsigned_abs(secs), nanos: 0 };
        let key: u128 = store_key(col);
        match col {
            CollectionSuffix::Lock(_) | CollectionSuffix::StalledCheck => {
                let _ = self.locks.update_expiration_status_at(key, duration, now);
            },
            CollectionSuffix::Job(_) => {
                let _ = self.jobs.update_expiration_status_at(key, duration, now);
            },
            _ => {},
        }
    }

    /// Lets a lock or a job record expire after `secs` seconds, counted without
    /// sign.
    pub fn expire(&mut self, col: CollectionSuffix, secs: i64)
        requires
            old(self).wf(),
        ensures
            final(self).wf(),
            exists|now: u128|
                now + magnitude(secs) * NANOS_PER_SEC <= u128::MAX && final(self)@
                    == #[trigger] expiring(
                    old(self)@,
                    col,
                    (now + magnitude(secs) * NANOS_PER_SEC) as u128,
                ),
    {
        let now: u128 = self.jobs.now();
        self.expire_at(col, secs, now);
    }

    /// Updates fields of the record of job `job_id`, if it has not expired at
    /// `now`.
    pub fn set_fields_at(&mut self, job_id: u64, fields: Vec<JobField<R>>, now: u128)
        requires
            old(self).wf(),
        ensures
            final(self).wf(),
            fields_stored(old(self)@, job_id, fields@, now, final(self)@),
    {
        let key: u128 = store_key(CollectionSuffix::Job(job_id));
        if let Some((job, expiry)) = self.jobs.take_at(key, now) {
            let ghost before = job;
            let mut job = job;
            apply_fields(&mut job, fields);
            proof {
                concurrent_timed_map::lemma_put_back(old(self)@.jobs, key, before, expiry, job);
            }
            self.jobs.put(key, job, expiry);
        }
    }

    /// Updates fields of the record of job `job_id`.
    pub fn set_fields(&mut self, job_id: u64, fields: Vec<JobField<R>>)
        requires
            old(self).wf(),
        ensures
            final(self).wf(),
            exists|now: u128| #[trigger]
                fields_stored(old(self)@, job_id, fields@, now, final(self)@),
    {
        let now: u128 = self.jobs.now();
        self.set_fields_at(job_id, fields, now);
    }

    /// Reports progress: the job, where it has an id, and its record, where it
    /// has one that has not expired at `now`, take over `value`.
    pub fn update_job_progress_at(&mut self, job: &mut Job<D, R, P>, value: P, now: u128) where
        P: Clone,

        requires
            old(self).wf(),
        ensures
            final(self).wf(),
            progress_reported(old(self)@, *old(job), value, now, final(self)@, *final(job)),
    {
        if let Some(id) = job.id {
            let key: u128 = store_key(CollectionSuffix::Job(id));
            if let Some((record, expiry)) = self.jobs.take_at(key, now) {
                let ghost before = record;
                let mut record = record;
                let copy = value.clone();
                assert(cloned(value, copy));
                record.progress = Some(copy);
                proof {
                    concurrent_timed_map::lemma_put_back(
                        old(self)@.jobs,
                        key,
                        before,
                        expiry,
                        record,
                    );
                }
                self.jobs.put(key, record, expiry);
            }
            job.progress = Some(value);
        }
    }

    /// Reports progress of a job.
    pub fn update_job_progress_sync(&mut self, job: &mut Job<D, R, P>, value: P) where P: Clone
        requires
            old(self).wf(),
        ensures
            final(self).wf(),
            exists|now: u128| #[trigger]
                progress_reported(old(self)@, *old(job), value, now, final(self)@, *final(job)),
    {
        let now: u128 = self.jobs.now();
        self.update_job_progress_at(job, value, now);
    }

    /// Reports progress of a job.
    pub fn update_job_progress(&mut self, job: &mut Job<D, R, P>, value: P) where P: Clone
        requires
            old(self).wf(),
        ensures
            final(self).wf(),
            exists|now: u128| #[trigger]
                progress_reported(old(self)@, *old(job), value, now, final(self)@, *final(job)),
    {
        self.update_job_progress_sync(job, value);
    }

    /// The counter of a job that `hash_key` names can take `delta`.
    pub open spec fn counter_fits(
        state: StoreState<D, R, P, M>,
        key: CollectionSuffix,
        delta: i64,
        hash_key: Option<Seq<char>>,
    ) -> bool {
        key is Job && state.jobs.entries.dom().contains(state::key_of(key)) ==> (hash_key matches Some(
            field,
        ) ==> (JobCounter::of_field(field) matches Some(counter) ==> {
            let sum = (counter.value_in(state.jobs.entries[state::key_of(key)].value()) as i64)
                + delta;
            i64::MIN <= sum <= i64::MAX
        }))
    }

    /// Adds `delta` to a counter at `now` and gives its new value: the id
    /// counter, the priority counter, the processing count, or a counter of a
    /// job, which does not fall below zero. Zero for everything else.
    pub fn incr_at(
        &mut self,
        key: CollectionSuffix,
        delta: i64,
        hash_key: Option<&str>,
        now: u128,
    ) -> (next: u64)
        requires
            old(self).wf(),
            Self::counter_fits(
                old(self)@,
                key,
                delta,
                text::chars_in(hash_key),
            ),
        ensures
            final(self).wf(),
            incremented(
                old(self)@,
                key,
                delta,
                text::chars_in(hash_key),
                now,
                next,
                final(self)@,
            ),
    {
        match key {
            CollectionSuffix::Id => {
                self.id_counter = self.id_counter.wrapping_add_signed(delta);
                self.id_counter
            },
            CollectionSuffix::PriorityCounter => {
                self.priority_counter = self.priority_counter.wrapping_add_signed(delta);
                self.priority_counter
            },
            CollectionSuffix::Meta => {
                self.processing = self.processing.wrapping_add_signed(delta);
                self.processing
            },
            CollectionSuffix::Job(_) => {
                let field = match hash_key {
                    Some(field) => field,
                    None => return 0,
                };
                let job_key: u128 = store_key(key);
                let (job, expiry) = match self.jobs.take_at(job_key, now) {
                    Some(taken) => taken,
                    None => return 0,
                };
                let ghost before = job;
                let mut job = job;
                let next: u64 = if same_text(field, "attempts_made") || same_text(
                    field,
                    "attemptsMade",
                ) {
                    let sum: i64 = (job.attempts_made as i64) + delta;
                    let new: u64 = if sum < 0 {
                        0
                    } else {
                        sum as u64
                    };
                    job.attempts_made = new;
                    new
                } else if same_text(field, "stalled_counter") || same_text(
                    field,
                    "stalledCounter",
                ) {
                    let sum: i64 = (job.stalled_counter as i64) + delta;
                    let new: u64 = if sum < 0 {
                        0
                    } else {
                        sum as u64
                    };
                    job.stalled_counter = new;
                    new
                } else {
                    0
                };
                proof {
                    concurrent_timed_map::lemma_put_back(
                        old(self)@.jobs,
                        job_key,
                        before,
                        expiry,
                        job,
                    );
                    if JobCounter::of_field(field@) is None {
                        assert(old(self)@.jobs.with_replaced(job_key, before) =~= old(self)@.jobs);
                    }
                }
                self.jobs.put(job_key, job, expiry);
                next
            },
            _ => 0,
        }
    }

    /// The value of a counter at `now`, or `None` where there is none: a job
    /// has counters while its record has not expired.
    pub fn get_counter_at(
        &mut self,
        key: CollectionSuffix,
        hash_key: Option<&str>,
        now: u128,
    ) -> (value: Option<u64>)
        requires
            old(self).wf(),
        ensures
            final(self).wf(),
            counter_read(
                old(self)@,
                key,
                lowered(hash_key),
                now,
                value,
                final(self)@,
            ),
    {
        match key {
            CollectionSuffix::Id => Some(self.id_counter),
            CollectionSuffix::PriorityCounter => Some(self.priority_counter),
            CollectionSuffix::Meta => Some(self.processing),
            CollectionSuffix::Job(_) => {
                let field = match hash_key {
                    Some(field) => field,
                    None => return None,
                };
                let lower = to_lowercase(field);
                match self.jobs.get_at(store_key(key), now) {
                    Some(job) => job_counter(job, lower.as_str()),
                    None => None,
                }
            },
            _ => None,
        }
    }

    /// Adds `delta` to a counter and gives its new value.
    pub fn incr(&mut self, key: CollectionSuffix, delta: i64, hash_key: Option<&str>) -> (next: u64)
        requires
            old(self).wf(),
            Self::counter_fits(
                old(self)@,
                key,
                delta,
                text::chars_in(hash_key),
            ),
        ensures
            final(self).wf(),
            exists|now: u128| #[trigger]
                incremented(
                    old(self)@,
                    key,
                    delta,
                    text::chars_in(hash_key),
                    now,
                    next,
                    final(self)@,
                ),
    {
        let now: u128 = self.jobs.now();
        self.incr_at(key, delta, hash_key, now)
    }

    /// The value of a counter.
    pub fn get_counter(&mut self, key: CollectionSuffix, hash_key: Option<&str>) -> (value: Option<
        u64,
    >)
        requires
            old(self).wf(),
        ensures
            final(self).wf(),
            exists|now: u128| #[trigger]
                counter_read(
                    old(self)@,
                    key,
                    lowered(hash_key),
                    now,
                    value,
                    final(self)@,
                ),
    {
        let now: u128 = self.jobs.now();
        self.get_counter_at(key, hash_key, now)
    }

    /// The state of job `id`.
    pub fn get_state(&mut self, id: u64) -> (state: Option<JobState>)
        requires
            old(self).wf(),
        ensures
            final(self).wf(),
            exists|now: u128|
                final(self)@ == (StoreState {
                    jobs: #[trigger] old(self)@.jobs.visited(job_key(id), now),
                    ..old(self)@
                }) && state == if old(self)@.jobs.live(job_key(id), now) {
                    Some(old(self)@.jobs.entries[job_key(id)].value().state)
                } else {
                    None
                },
    {
        let now: u128 = self.jobs.now();
        let state = self.get_state_at(id, now);
        assert(self@.jobs == old(self)@.jobs.visited(job_key(id), now));
        state
    }

    /// Whether job `id` has a record.
    pub fn job_exists(&mut self, id: u64) -> (found: bool)
        requires
            old(self).wf(),
        ensures
            final(self).wf(),
            exists|now: u128|
                final(self)@ == (StoreState {
                    jobs: #[trigger] old(self)@.jobs.visited(job_key(id), now),
                    ..old(self)@
                }) && found == old(self)@.jobs.live(job_key(id), now),
    {
        let now: u128 = self.jobs.now();
        let found = self.job_exists_at(id, now);
        assert(self@.jobs == old(self)@.jobs.visited(job_key(id), now));
        found
    }

    /// Whether `item` is in the collection `col`.
    pub fn exists_in(&mut self, col: CollectionSuffix, item: u64) -> (found: bool)
        requires
            old(self).wf(),
        ensures
            final(self).wf(),
            exists|now: u128| #[trigger] found_in(old(self)@, col, item, now, found, final(self)@),
    {
        let now: u128 = match col {
            CollectionSuffix::Job(_) => self.jobs.now(),
            _ => self.locks.now(),
        };
        let found = self.exists_in_at(col, item, now);
        assert(found_in(old(self)@, col, item, now, found, self@));
        found
    }

    /// Copies of the records of `ids`, in the order of `ids`.
    pub fn fetch_jobs(&mut self, ids: &Vec<u64>) -> (jobs: Vec<Job<D, R, P>>) where
        D: Clone,
        R: Clone,
        P: Clone,

        requires
            old(self).wf(),
        ensures
            final(self).wf(),
            exists|now: u128|
                final(self)@ == (StoreState {
                    jobs: #[trigger] visited_all(old(self)@.jobs, ids@, now),
                    ..old(self)@
                }) && jobs@.len() == ids@.filter(has_record(old(self)@.jobs, now)).len() && forall|
                    i: int,
                |
                    0 <= i < jobs@.len() ==> (#[trigger] jobs@[i]).copy_of(
                        old(self)@.jobs.entries[job_key(
                            ids@.filter(has_record(old(self)@.jobs, now))[i],
                        )].value(),
                    ),
    {
        let now: u128 = self.jobs.now();
        let jobs = self.fetch_jobs_at(ids, now);
        assert(self@.jobs == visited_all(old(self)@.jobs, ids@, now));
        jobs
    }
}

/// The counter of a job that a field name in lower case stands for.
pub open spec fn counter_named<D, R, P>(job: Job<D, R, P>, lower: Seq<char>) -> Option<u64> {
    match JobCounter::of_lowercase(lower) {
        Some(counter) => Some(counter.value_in(job)),
        None => None,
    }
}

/// The counter of a job that a field name in lower case stands for.
pub fn job_counter<D, R, P>(job: &Job<D, R, P>, lower: &str) -> (value: Option<u64>)
    ensures
        value == counter_named(*job, lower@),
{
    if same_text(lower, "stalled_counter") || same_text(lower, "stalledcounter") {
        Some(job.stalled_counter)
    } else if same_text(lower, "attempts_made") || same_text(lower, "attemptsmade") {
        Some(job.attempts_made)
    } else {
        None
    }
}

} // verus!
