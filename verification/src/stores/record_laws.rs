//! What holds of records, locks, counters and counts, whatever the store holds.
use crate::job::{Job, JobState, JobToken};
use crate::outside::scored_ids;
use crate::queue::{collections, CollectionSuffix, JobField, ProcessedResult, QueueEventMode};
use crate::stores::inmemory_store::{collections as stored_collections, records};
use crate::stores::laws;
use crate::stores::state::{self, JobCounter, StoreState};
use crate::stores::Lock;
use crate::time::Dt;
use crate::timers::concurrent_timed_map::TimedState;
use crate::utils::sequences;
use vstd::prelude::*;

verus! {

/// The counts of a queue are the lengths of its lists and sets, its counters and its
/// pause flag.
pub proof fn law_counts_are_lengths<D, R, P, M>(state: StoreState<D, R, P, M>)
    requires
        forall|col: CollectionSuffix| (#[trigger] state.ids_of(col)).len() <= u64::MAX,
    ensures
        ({
            let metrics = state.metrics();
            &&& metrics.waiting == state.ids_of(CollectionSuffix::Wait).len()
            &&& metrics.prioritized == state.ids_of(CollectionSuffix::Prioritized).len()
            &&& metrics.delayed == state.ids_of(CollectionSuffix::Delayed).len()
            &&& metrics.stalled == state.ids_of(CollectionSuffix::Stalled).len()
            &&& metrics.active == state.ids_of(CollectionSuffix::Active).len()
            &&& metrics.paused == state.ids_of(CollectionSuffix::Paused).len()
            &&& metrics.completed == state.ids_of(CollectionSuffix::Completed).len()
            &&& metrics.failed == state.ids_of(CollectionSuffix::Failed).len()
            &&& metrics.last_id == state.id_counter
            &&& metrics.processing == state.processing
            &&& metrics.is_paused == state.is_paused
            &&& metrics.event_mode == QueueEventMode::PubSub
        }),
{
    assert(state.ids_of(CollectionSuffix::Wait).len() <= u64::MAX);
    assert(state.ids_of(CollectionSuffix::Prioritized).len() <= u64::MAX);
    assert(state.ids_of(CollectionSuffix::Delayed).len() <= u64::MAX);
    assert(state.ids_of(CollectionSuffix::Stalled).len() <= u64::MAX);
    assert(state.ids_of(CollectionSuffix::Active).len() <= u64::MAX);
    assert(state.ids_of(CollectionSuffix::Paused).len() <= u64::MAX);
    assert(state.ids_of(CollectionSuffix::Completed).len() <= u64::MAX);
    assert(state.ids_of(CollectionSuffix::Failed).len() <= u64::MAX);
}

/// A queue that holds a job that waits, is prioritized, delayed or stalled has work and
/// is not idle; one that holds an active job is not idle.
pub proof fn law_jobs_to_do_are_work<D, R, P, M>(state: StoreState<D, R, P, M>, id: u64)
    requires
        forall|col: CollectionSuffix| (#[trigger] state.ids_of(col)).len() <= u64::MAX,
    ensures
        state.ids_of(CollectionSuffix::Wait).contains(id) || state.ids_of(
            CollectionSuffix::Prioritized,
        ).contains(id) || state.ids_of(CollectionSuffix::Delayed).contains(id) || state.ids_of(
            CollectionSuffix::Stalled,
        ).contains(id) ==> state.metrics().has_work() && !state.metrics().idle(),
        state.ids_of(CollectionSuffix::Active).contains(id) ==> !state.metrics().idle(),
        state.ids_of(CollectionSuffix::Wait).len() == 0 && state.ids_of(
            CollectionSuffix::Prioritized,
        ).len() == 0 && state.ids_of(CollectionSuffix::Delayed).len() == 0 && state.ids_of(
            CollectionSuffix::Stalled,
        ).len() == 0 ==> !state.metrics().has_work(),
{
    law_counts_are_lengths(state);
    crate::queue::metrics::law_work_is_what_waits(state.metrics());
    crate::queue::metrics::law_idle_is_nothing_to_do(state.metrics(), state.metrics());
}

/// A new store holds nothing: no job in any list or set, no record, no lock; its
/// counters stand at zero, and its queue is not paused.
pub proof fn law_new_store_is_empty<D, R, P, M>(
    prefix: Seq<char>,
    name: Seq<char>,
    col: CollectionSuffix,
    key: u128,
)
    ensures
        ({
            let fresh = StoreState::<D, R, P, M>::fresh(prefix, name);
            &&& fresh.ids_of(col).len() == 0
            &&& !fresh.jobs.entries.dom().contains(key)
            &&& !fresh.locks.entries.dom().contains(key)
            &&& !fresh.worker_metrics.entries.dom().contains(key)
            &&& !fresh.process_metrics.entries.dom().contains(key)
            &&& fresh.id_counter == 0 && fresh.priority_counter == 0 && fresh.processing == 0
            &&& !fresh.is_paused && fresh.listener is None
            &&& fresh.name == name && fresh.prefix == prefix
            &&& !fresh.metrics().has_work()
            &&& fresh.in_order()
        }),
{
}

/// The jobs in a state are those of the collection that the state's name stands for;
/// the states that are none of a job at rest have none.
pub proof fn law_states_have_their_collections<D, R, P, M>(state: StoreState<D, R, P, M>)
    ensures
        state.ids_in(JobState::Wait) == state.ids_of(CollectionSuffix::Wait),
        state.ids_in(JobState::Active) == state.ids_of(CollectionSuffix::Active),
        state.ids_in(JobState::Paused) == state.ids_of(CollectionSuffix::Paused),
        state.ids_in(JobState::Stalled) == state.ids_of(CollectionSuffix::Stalled),
        state.ids_in(JobState::Completed) == state.ids_of(CollectionSuffix::Completed),
        state.ids_in(JobState::Failed) == state.ids_of(CollectionSuffix::Failed),
        state.ids_in(JobState::Delayed) == state.ids_of(CollectionSuffix::Delayed),
        state.ids_in(JobState::Prioritized) == state.ids_of(CollectionSuffix::Prioritized),
        state.ids_in(JobState::Resumed).len() == 0,
        state.ids_in(JobState::Progress).len() == 0,
        state.ids_in(JobState::Obliterated).len() == 0,
        state.ids_in(JobState::Processing).len() == 0,
{
}

/// Each list and set has a place of its own: what a store holds of one is what was put
/// there, and the sorted sets hold the ids of their entries.
pub proof fn law_collections_are_apart<D, R, P, M>(
    state: StoreState<D, R, P, M>,
    col: CollectionSuffix,
    other: CollectionSuffix,
    entries: Seq<(i128, u64)>,
    list: crate::utils::DequeState,
)
    ensures
        state.entries_of(col) is Some <==> col is Completed || col is Failed || col is Prioritized
            || col is Delayed,
        state.entries_of(col) is Some ==> {
            let after = state.with_entries_of(col, entries);
            &&& after.entries_of(col) == Some(entries)
            &&& after.ids_of(col) == sequences::values_of(entries)
            &&& other != col ==> after.ids_of(other) == state.ids_of(other)
            &&& after.jobs == state.jobs && after.locks == state.locks
        },
        state.list_of(col) is Some <==> col is Active || col is Wait || col is Paused,
        state.list_of(col) is Some ==> {
            let after = state.with_list(col, list);
            &&& after.list_of(col) == Some(list)
            &&& after.ids_of(col) == list.items
            &&& other != col ==> after.ids_of(other) == state.ids_of(other)
            &&& after.jobs == state.jobs && after.locks == state.locks
        },
{
}

/// A collection that was deleted is empty, a record or a lock that was deleted is gone,
/// and everything else stays.
pub proof fn law_deleted_is_gone<D, R, P, M>(
    state: StoreState<D, R, P, M>,
    col: CollectionSuffix,
    other: CollectionSuffix,
    key: u128,
    now: u128,
)
    ensures
        ({
            let after = state.removed(col);
            &&& after.ids_of(col).len() == 0
            &&& other != col ==> after.ids_of(other) == state.ids_of(other)
            &&& col is Job ==> !after.jobs.live(state::key_of(col), now)
            &&& col is Lock || col is StalledCheck ==> !after.locks.live(state::key_of(col), now)
            &&& !(col is Job) || key != state::key_of(col) ==> after.jobs.live(key, now)
                == state.jobs.live(key, now)
            &&& !(col is Lock || col is StalledCheck) || key != state::key_of(col)
                ==> after.locks.live(key, now) == state.locks.live(key, now)
            &&& after.id_counter == state.id_counter && after.is_paused == state.is_paused
        }),
{
}

/// A job that was removed from a list or a set is gone from it; every other job that
/// was there still is, and none has come in. The record of a removed job or lock is
/// gone, and those of the others stay.
pub proof fn law_removal_takes_one_job<D, R, P, M>(
    state: StoreState<D, R, P, M>,
    col: CollectionSuffix,
    id: u64,
    other: u64,
    key: u128,
)
    ensures
        laws::holds_jobs(col) ==> {
            let after = state.item_removed(col, id).ids_of(col);
            &&& !after.contains(id)
            &&& other != id ==> (after.contains(other) <==> state.ids_of(col).contains(other))
        },
        col is Job ==> {
            let after = state.item_removed(col, id);
            &&& !after.jobs.entries.dom().contains(state::key_of(col))
            &&& key != state::key_of(col) ==> (after.jobs.entries.dom().contains(key)
                <==> state.jobs.entries.dom().contains(key)) && after.jobs.entries[key]
                == state.jobs.entries[key]
        },
        col is Lock ==> {
            let after = state.item_removed(col, id);
            &&& !after.locks.entries.dom().contains(state::key_of(col))
            &&& key != state::key_of(col) ==> (after.locks.entries.dom().contains(key)
                <==> state.locks.entries.dom().contains(key)) && after.locks.entries[key]
                == state.locks.entries[key]
        },
{
    if laws::holds_jobs(col) {
        laws::law_removed_is_gone(state, col, id);
        let before = state.ids_of(col);
        let keep = crate::outside::sorted_ids::other_than(id);
        let after = before.filter(keep);
        sequences::lemma_filter_elements(before, keep);
        if after.contains(other) {
            let i = choose|i: int| 0 <= i < after.len() && after[i] == other;
            assert(before.contains(before.filter(keep)[i]));
        }
        if other != id && before.contains(other) {
            assert(keep(other));
            assert(after.contains(other));
        }
    }
}

/// A counter goes up and down by what is added to it as long as it stays in its range,
/// and what was added can be taken off again, even where it went over the end of its
/// range. A job's counter does not fall below zero.
pub proof fn law_counter_moves_by_what_is_added(counter: u64, delta: i64)
    ensures
        0 <= counter + delta <= u64::MAX ==> state::bumped(counter, delta) == counter + delta,
        (state::bumped(counter, delta) - counter - delta) % 0x1_0000_0000_0000_0000 == 0,
        delta > i64::MIN ==> state::bumped(state::bumped(counter, delta), (-delta) as i64)
            == counter,
        counter <= i64::MAX && 0 <= counter + delta ==> state::bumped_job_counter(counter, delta)
            == counter + delta,
        counter <= i64::MAX && counter + delta < 0 ==> state::bumped_job_counter(counter, delta)
            == 0,
{
}

/// Each of the two counters of a job has two names, and the names in lower case stand
/// for the same counters.
pub proof fn law_counters_are_named()
    ensures
        JobCounter::of_field("attempts_made"@) == Some(JobCounter::AttemptsMade),
        JobCounter::of_field("attemptsMade"@) == Some(JobCounter::AttemptsMade),
        JobCounter::of_field("stalled_counter"@) == Some(JobCounter::StalledCounter),
        JobCounter::of_field("stalledCounter"@) == Some(JobCounter::StalledCounter),
        JobCounter::of_lowercase("attempts_made"@) == Some(JobCounter::AttemptsMade),
        JobCounter::of_lowercase("attemptsmade"@) == Some(JobCounter::AttemptsMade),
        JobCounter::of_lowercase("stalled_counter"@) == Some(JobCounter::StalledCounter),
        JobCounter::of_lowercase("stalledcounter"@) == Some(JobCounter::StalledCounter),
{
    reveal_strlit("attempts_made");
    reveal_strlit("attemptsMade");
    reveal_strlit("attemptsmade");
    reveal_strlit("stalled_counter");
    reveal_strlit("stalledCounter");
    reveal_strlit("stalledcounter");
    assert("stalled_counter"@[0] == 's' && "stalledCounter"@[0] == 's' && "stalledcounter"@[0]
        == 's');
    assert("attempts_made"@[0] == 'a' && "attemptsMade"@[0] == 'a' && "attemptsmade"@[0] == 'a');
}

/// Setting a counter of a job sets that counter and leaves the other, and everything
/// else of the job, as it is.
pub proof fn law_counters_are_apart<D, R, P>(job: Job<D, R, P>, value: u64)
    ensures
        ({
            let tried = JobCounter::AttemptsMade.set_in(job, value);
            let stalled = JobCounter::StalledCounter.set_in(job, value);
            &&& tried.attempts_made == value && tried.stalled_counter == job.stalled_counter
            &&& stalled.stalled_counter == value && stalled.attempts_made == job.attempts_made
            &&& tried == (Job { attempts_made: value, ..job })
            &&& stalled == (Job { stalled_counter: value, ..job })
            &&& JobCounter::AttemptsMade.value_in(tried) == value
            &&& JobCounter::StalledCounter.value_in(stalled) == value
            &&& JobCounter::StalledCounter.value_in(tried) == job.stalled_counter
            &&& JobCounter::AttemptsMade.value_in(stalled) == job.attempts_made
        }),
{
}

/// A counter that was added to stands where it stood plus what was added, the value
/// says so, and no other counter, list or record changes: the number of the last job,
/// the priority counter, or the number of jobs being processed.
pub proof fn law_one_counter_is_added_to<D, R, P, M>(
    before: StoreState<D, R, P, M>,
    key: CollectionSuffix,
    delta: i64,
    hash_key: Option<Seq<char>>,
    now: u128,
    next: u64,
    after: StoreState<D, R, P, M>,
)
    requires
        records::incremented(before, key, delta, hash_key, now, next, after),
    ensures
        key is Id && 0 <= before.id_counter + delta <= u64::MAX ==> next == before.id_counter
            + delta && after == (StoreState { id_counter: next, ..before }),
        key is PriorityCounter && 0 <= before.priority_counter + delta <= u64::MAX ==> next
            == before.priority_counter + delta && after == (StoreState {
            priority_counter: next,
            ..before
        }),
        key is Meta && 0 <= before.processing + delta <= u64::MAX ==> next == before.processing
            + delta && after == (StoreState { processing: next, ..before }),
        laws::holds_jobs(key) || key is Events || key is Prefix || key is Marker || key is Lock
            || key is StalledCheck ==> next == 0 && after == before,
        forall|col: CollectionSuffix| #[trigger] after.ids_of(col) == before.ids_of(col),
        after.locks == before.locks,
{
}

/// An attempt, or a stall, of a job that has a record is counted in the record, once for
/// each time it is added, under either name of the counter; the job's other fields
/// stay.
pub proof fn law_jobs_counter_is_added_to<D, R, P, M>(
    before: StoreState<D, R, P, M>,
    id: u64,
    delta: i64,
    field: Seq<char>,
    counter: JobCounter,
    now: u128,
    next: u64,
    after: StoreState<D, R, P, M>,
)
    requires
        records::incremented(before, CollectionSuffix::Job(id), delta, Some(field), now, next, after),
        before.jobs.live(records::job_key(id), now),
        JobCounter::of_field(field) == Some(counter),
        counter.value_in(before.jobs.entries[records::job_key(id)].value()) <= i64::MAX,
        counter.value_in(before.jobs.entries[records::job_key(id)].value()) + delta >= 0,
    ensures
        ({
            let was = before.jobs.entries[records::job_key(id)].value();
            let is = after.jobs.entries[records::job_key(id)].value();
            &&& next == counter.value_in(was) + delta
            &&& counter == JobCounter::AttemptsMade ==> is == (Job { attempts_made: next, ..was })
            &&& counter == JobCounter::StalledCounter ==> is == (Job {
                stalled_counter: next,
                ..was
            })
            &&& after.jobs.live(records::job_key(id), now)
        }),
{
}

/// An update of a job's record sets the field that it names and no other: the trace is
/// added behind those before it, a time is the one that was given, the outcome of a run
/// is its value or its failure.
pub proof fn law_update_sets_its_field<D, R, P>(
    old: Job<D, R, P>,
    field: JobField<R>,
    new: Job<D, R, P>,
)
    requires
        state::field_applied(old, field, new),
    ensures
        match field {
            JobField::BackTrace(trace) => new.stack_trace@ == old.stack_trace@.push(trace)
                && new.state == old.state,
            JobField::State(state) => new.state == state,
            JobField::ProcessedOn(micros) => micros <= i64::MAX ==> (new.processed_on is Some
                <==> crate::time::in_calendar(micros * 1_000)) && (new.processed_on matches Some(
                at,
            ) ==> at@ == micros * 1_000),
            JobField::FinishedOn(micros) => micros <= i64::MAX ==> (new.finished_on is Some
                <==> crate::time::in_calendar(micros * 1_000)) && (new.finished_on matches Some(
                at,
            ) ==> at@ == micros * 1_000),
            JobField::Token(token) => new.token == Some(token),
            JobField::Payload(ProcessedResult::Failed(details)) => new.failed_reason == Some(
                details,
            ) && new.returned_value == old.returned_value,
            JobField::Payload(ProcessedResult::Success(value, _)) => new.returned_value == Some(
                value,
            ) && new.failed_reason == old.failed_reason,
        },
        !(field is BackTrace) ==> new.stack_trace == old.stack_trace,
        !(field is State) ==> new.state == old.state,
        !(field is ProcessedOn) ==> new.processed_on == old.processed_on,
        !(field is FinishedOn) ==> new.finished_on == old.finished_on,
        !(field is Token) ==> new.token == old.token,
        !(field is Payload) ==> new.failed_reason == old.failed_reason && new.returned_value
            == old.returned_value,
        new.id == old.id && new.data == old.data && new.name == old.name && new.opts == old.opts,
        new.attempts_made == old.attempts_made && new.stalled_counter == old.stalled_counter,
        new.progress == old.progress && new.ts == old.ts && new.priority == old.priority,
{
}

/// A time that the calendar reaches is kept to the microsecond; one that it does not
/// reach is not kept at all.
pub proof fn law_times_are_kept(dt: Option<Dt>, micros: i64)
    requires
        state::instant_is(dt, micros),
    ensures
        dt is Some <==> crate::time::in_calendar(micros * 1_000),
        dt matches Some(dt) ==> dt@ == micros * 1_000,
{
}

/// Updates are made one after the other: the last one to name a field decides it.
pub proof fn law_updates_follow_each_other<D, R, P>(
    old: Job<D, R, P>,
    fields: Seq<JobField<R>>,
    last: JobField<R>,
    new: Job<D, R, P>,
)
    requires
        state::fields_applied(old, fields.push(last), new),
    ensures
        last matches JobField::State(state) ==> new.state == state,
        last matches JobField::Token(token) ==> new.token == Some(token),
        exists|mid: Job<D, R, P>|
            state::fields_applied(old, fields, mid) && #[trigger] state::field_applied(
                mid,
                last,
                new,
            ),
        state::fields_applied(old, Seq::<JobField<R>>::empty(), new) ==> new == old,
{
    assert(fields.push(last).drop_last() =~= fields);
}

/// The token that a lock was set with is the one it is held with; a lock for the check
/// of stalled jobs has none.
pub proof fn law_lock_keeps_its_token(token: JobToken, other: JobToken)
    ensures
        records::token_of(records::lock_with(Some(token))) == Some(token),
        records::token_of(records::lock_with(None)) is None,
        records::lock_with(Some(token)) == records::lock_with(Some(other)) ==> token == other,
        records::lock_with(None) == Lock::StallCheck,
{
}

/// A time in seconds is counted without its sign.
pub proof fn law_seconds_have_no_sign(secs: i64)
    ensures
        secs >= 0 ==> records::magnitude(secs) == secs,
        secs < 0 ==> records::magnitude(secs) == -secs,
{
}

/// A record or a lock that is given an expiry is there until then and no longer, and
/// holds what it held; all others stay as they are, and nothing that was not there
/// comes into being.
pub proof fn law_expiry_is_kept<D, R, P, M>(
    before: StoreState<D, R, P, M>,
    id: u64,
    expires_at: u128,
    key: u128,
    now: u128,
)
    requires
        id < collections::PAYLOAD_LIMIT,
        !before.jobs.disabled,
        !before.locks.disabled,
    ensures
        ({
            let after = records::expiring(before, CollectionSuffix::Job(id), expires_at);
            let at = records::job_key(id);
            &&& before.jobs.entries.dom().contains(at) ==> (after.jobs.live(at, now) <==> now
                < expires_at) && after.jobs.entries[at].value() == before.jobs.entries[at].value()
            &&& !before.jobs.entries.dom().contains(at) ==> !after.jobs.live(at, now)
            &&& key != at ==> after.jobs.live(key, now) == before.jobs.live(key, now)
            &&& after == (StoreState { jobs: after.jobs, ..before })
        }),
        ({
            let after = records::expiring(before, CollectionSuffix::Lock(id), expires_at);
            let at = records::lock_key(id);
            &&& before.locks.entries.dom().contains(at) ==> (after.locks.live(at, now) <==> now
                < expires_at) && after.locks.entries[at].value()
                == before.locks.entries[at].value()
            &&& !before.locks.entries.dom().contains(at) ==> !after.locks.live(at, now)
            &&& key != at ==> after.locks.live(key, now) == before.locks.live(key, now)
            &&& after == (StoreState { locks: after.locks, ..before })
        }),
        records::expiring(before, CollectionSuffix::Wait, expires_at) == before,
{
}

/// Whether a job is in a collection is answered truly: by the list or the set, by the
/// record or by the lock. Asking changes no list, and no record or lock that has not
/// expired.
pub proof fn law_presence_is_answered<D, R, P, M>(
    before: StoreState<D, R, P, M>,
    col: CollectionSuffix,
    item: u64,
    now: u128,
    found: bool,
    after: StoreState<D, R, P, M>,
    other: CollectionSuffix,
    key: u128,
)
    requires
        records::found_in(before, col, item, now, found, after),
    ensures
        laws::holds_jobs(col) ==> (found <==> before.ids_of(col).contains(item)),
        col is Job ==> (found <==> before.jobs.live(state::key_of(col), now)),
        col is Lock || col is StalledCheck ==> (found <==> before.locks.live(
            state::key_of(col),
            now,
        )),
        after.ids_of(other) == before.ids_of(other),
        before.jobs.live(key, now) ==> after.jobs.live(key, now) && after.jobs.entries[key]
            == before.jobs.entries[key],
        before.locks.live(key, now) ==> after.locks.live(key, now) && after.locks.entries[key]
            == before.locks.entries[key],
{
}

/// Progress that a job reports is its progress, and its record's where it has one; the
/// record's other fields and the other records stay. A job without an id reports
/// nothing.
pub proof fn law_progress_is_kept<D, R, P: Clone, M>(
    before: StoreState<D, R, P, M>,
    job: Job<D, R, P>,
    value: P,
    now: u128,
    after: StoreState<D, R, P, M>,
    job_after: Job<D, R, P>,
    other: u128,
)
    requires
        records::progress_reported(before, job, value, now, after, job_after),
    ensures
        job.id is Some ==> job_after == (Job { progress: Some(value), ..job }),
        job.id is None ==> job_after == job && after == before,
        job.id is Some && before.jobs.live(records::job_key(job.id->0), now) ==> {
            let at = records::job_key(job.id->0);
            let was = before.jobs.entries[at].value();
            let is = after.jobs.entries[at].value();
            &&& is.progress is Some && cloned(value, is.progress->0)
            &&& is == (Job { progress: is.progress, ..was })
            &&& after.jobs.live(at, now)
            &&& other != at ==> after.jobs.entries[other] == before.jobs.entries[other]
        },
        after.waiting == before.waiting && after.active == before.active && after.locks
            == before.locks,
{
}

/// Of the delayed jobs, those are due whose time lies in the window, both ends
/// included; those have missed it whose time lies before; and those stay whose time
/// lies behind.
pub proof fn law_due_by_time(entry: (i128, u64), start: i128, stop: i128)
    requires
        start <= stop,
    ensures
        sequences::between_scores(start, stop)(entry) <==> start <= entry.0 <= stop,
        sequences::below_score(start)(entry) <==> entry.0 < start,
        sequences::not_due(start, stop)(entry) <==> entry.0 > stop,
{
}

/// The first entry of a sorted set has its lowest score, and the last one its highest.
pub proof fn law_ends_of_a_sorted_set(entries: Seq<(i128, u64)>, i: int)
    requires
        scored_ids::ascending(entries),
        0 <= i < entries.len(),
    ensures
        entries[0].0 <= entries[i].0 <= entries.last().0,
{
    if i > 0 {
        assert(scored_ids::comes_before(entries[0], entries[i]));
    }
    if i < entries.len() - 1 {
        assert(scored_ids::comes_before(entries[i], entries[entries.len() - 1]));
    }
}

/// A score comes out as it went in: itself where it is not negative, and otherwise as
/// the number with the same bits. Different scores stay different.
pub proof fn law_scores_come_out_as_they_went_in(score: i128, other: i128)
    requires
        -0x8000_0000_0000_0000 <= score <= 0x7FFF_FFFF_FFFF_FFFF,
        -0x8000_0000_0000_0000 <= other <= 0x7FFF_FFFF_FFFF_FFFF,
    ensures
        score >= 0 ==> sequences::score_bits(score) == score,
        score < 0 ==> sequences::score_bits(score) == score + 0x1_0000_0000_0000_0000,
        sequences::score_bits(score) == sequences::score_bits(other) ==> score == other,
{
}

/// Deleting the jobs up to an id deletes the records of exactly those jobs.
pub proof fn law_jobs_up_to_an_id(id: u64, last_id: u64)
    requires
        id < collections::PAYLOAD_LIMIT,
    ensures
        stored_collections::jobs_above(last_id)(records::job_key(id)) <==> id > last_id,
{
    let n = CollectionSuffix::Job(id).number() as int;
    let p = id as int;
    assert((n * 0x0100_0000_0000_0000 + p) % 0x0100_0000_0000_0000 == p) by (nonlinear_arith)
        requires
            0 <= p < 0x0100_0000_0000_0000,
    ;
    collections::law_from_tag_undoes_tag(CollectionSuffix::Job(id));
}

/// Looking at records leaves those that have not expired as they are, however many are
/// looked at.
pub proof fn law_looking_changes_nothing<D, R, P>(
    jobs: TimedState<Job<D, R, P>>,
    ids: Seq<u64>,
    now: u128,
    key: u128,
)
    ensures
        jobs.live(key, now) ==> records::visited_all(jobs, ids, now).live(key, now)
            && records::visited_all(jobs, ids, now).entries[key] == jobs.entries[key],
        !jobs.live(key, now) ==> !records::visited_all(jobs, ids, now).live(key, now),
    decreases ids.len(),
{
    if ids.len() > 0 {
        law_looking_changes_nothing(jobs, ids.drop_last(), now, key);
    }
}

/// A list has room as long as it has places left on the side where an id goes; a set
/// always has. The waiting jobs can be paused where the paused list has places for
/// them at its back, and resumed the other way round.
pub proof fn law_room_is_what_is_left<D, R, P, M>(
    state: StoreState<D, R, P, M>,
    col: CollectionSuffix,
    append: bool,
    prefix: Seq<char>,
    name: Seq<char>,
)
    ensures
        state.has_room(CollectionSuffix::Wait, false) <==> state.waiting.front_room > 0,
        state.has_room(CollectionSuffix::Wait, true) <==> state.waiting.back_room > 0,
        state.has_room(CollectionSuffix::Active, false) <==> state.active.front_room > 0,
        state.has_room(CollectionSuffix::Active, true) <==> state.active.back_room > 0,
        state.has_room(CollectionSuffix::Paused, false) <==> state.paused.front_room > 0,
        state.has_room(CollectionSuffix::Paused, true) <==> state.paused.back_room > 0,
        state.list_of(col) is None ==> state.has_room(col, append),
        state.can_pause(true) <==> state.waiting.items.len() <= state.paused.back_room,
        state.can_pause(false) <==> state.paused.items.len() <= state.waiting.back_room,
        StoreState::<D, R, P, M>::fresh(prefix, name).has_room(col, append),
        StoreState::<D, R, P, M>::fresh(prefix, name).can_pause(append),
{
}

/// Jobs with a record that has not expired are found, and no others.
pub proof fn law_live_records_are_found<D, R, P>(
    jobs: TimedState<Job<D, R, P>>,
    ids: Seq<u64>,
    now: u128,
    id: u64,
)
    ensures
        records::has_record(jobs, now)(id) <==> jobs.live(records::job_key(id), now),
        ids.filter(records::has_record(jobs, now)).contains(id) <==> ids.contains(id)
            && jobs.live(records::job_key(id), now),
{
    let keep = records::has_record(jobs, now);
    let found = ids.filter(keep);
    sequences::lemma_filter_elements(ids, keep);
    if found.contains(id) {
        let i = choose|i: int| 0 <= i < found.len() && found[i] == id;
        assert(keep(found[i]));
    }
    if ids.contains(id) && keep(id) {
        assert(found.contains(id));
    }
}

/// A job's counter is read under its name in lower case.
pub proof fn law_counters_are_read_by_name<D, R, P>(job: Job<D, R, P>)
    ensures
        records::counter_named(job, "attemptsmade"@) == Some(job.attempts_made),
        records::counter_named(job, "attempts_made"@) == Some(job.attempts_made),
        records::counter_named(job, "stalledcounter"@) == Some(job.stalled_counter),
        records::counter_named(job, "stalled_counter"@) == Some(job.stalled_counter),
{
    law_counters_are_named();
}

/// A counter is read where it stands: the number of the last job, the priority counter,
/// or the number of jobs being processed; reading changes none of them.
pub proof fn law_counters_are_read_where_they_stand<D, R, P, M>(
    before: StoreState<D, R, P, M>,
    key: CollectionSuffix,
    lower: Option<Seq<char>>,
    now: u128,
    value: Option<u64>,
    after: StoreState<D, R, P, M>,
)
    requires
        records::counter_read(before, key, lower, now, value, after),
    ensures
        key is Id ==> value == Some(before.id_counter),
        key is PriorityCounter ==> value == Some(before.priority_counter),
        key is Meta ==> value == Some(before.processing),
        key is Wait || key is Delayed || key is Events ==> value is None,
        key is Job && !before.jobs.live(state::key_of(key), now) ==> value is None,
        after.id_counter == before.id_counter && after.priority_counter == before.priority_counter,
        after.processing == before.processing && after.waiting == before.waiting,
{
}

/// An item goes where it was asked to: to the tail of a list, or to its front, with the
/// others in their order; into a sorted set with its score and not without one; and
/// nowhere where there is no list and no set.
pub proof fn law_items_go_where_asked<D, R, P, M>(
    state: StoreState<D, R, P, M>,
    col: CollectionSuffix,
    item: u64,
    score: Option<i64>,
    append: bool,
)
    ensures
        ({
            let after = state.item_added(col, item, score, append);
            let ids = state.ids_of(col);
            &&& col is Wait || col is Active || col is Paused ==> if append {
                after.ids_of(col).len() == ids.len() + 1 && after.ids_of(col).last() == item
                    && after.ids_of(col).drop_last() == ids
            } else {
                after.ids_of(col).len() == ids.len() + 1 && after.ids_of(col)[0] == item
                    && after.ids_of(col).skip(1) == ids
            }
            &&& state.entries_of(col) is Some && score is None ==> after == state
            &&& state.entries_of(col) is Some && score is Some
                && scored_ids::ascending(state.entries_of(col)->0) ==> after.entries_of(col)
                is Some && (after.entries_of(col)->0).contains((score->0 as i128, item))
            &&& !(col is Wait || col is Active || col is Paused || col is Stalled)
                && state.entries_of(col) is None ==> after == state
        }),
{
    let after = state.item_added(col, item, score, append);
    let ids = state.ids_of(col);
    if col is Wait || col is Active || col is Paused {
        if append {
            assert(after.ids_of(col) =~= ids.push(item));
            assert(after.ids_of(col).drop_last() =~= ids);
        } else {
            assert(after.ids_of(col) =~= seq![item] + ids);
            assert(after.ids_of(col).skip(1) =~= ids);
        }
    }
    if let Some(entries) = state.entries_of(col) {
        if scored_ids::ascending(entries) && score is Some {
            sequences::lemma_scored_entries(entries, score->0 as i128, item);
        }
    }
}

/// The jobs of a queue that is paused come behind those that it holds already, in
/// their order, and are thus taken up before them; and so do those of a queue that is
/// resumed. The list that they leave is empty, and the flag says which it was.
pub proof fn law_held_jobs_keep_their_order<D, R, P, M>(
    state: StoreState<D, R, P, M>,
    pause: bool,
)
    ensures
        ({
            let after = state.paused_or_resumed(pause);
            let (from, to) = if pause {
                (CollectionSuffix::Wait, CollectionSuffix::Paused)
            } else {
                (CollectionSuffix::Paused, CollectionSuffix::Wait)
            };
            let held = state.ids_of(to).len() as int;
            &&& after.is_paused == pause
            &&& after.ids_of(from).len() == 0
            &&& after.ids_of(to).len() == held + state.ids_of(from).len()
            &&& after.ids_of(to).take(held) == state.ids_of(to)
            &&& after.ids_of(to).skip(held) == state.ids_of(from)
            &&& state.ids_of(from).len() > 0 ==> after.ids_of(to).last() == state.ids_of(
                from,
            ).last()
        }),
{
    let after = state.paused_or_resumed(pause);
    let (from, to) = if pause {
        (CollectionSuffix::Wait, CollectionSuffix::Paused)
    } else {
        (CollectionSuffix::Paused, CollectionSuffix::Wait)
    };
    let held = state.ids_of(to).len() as int;
    assert(after.ids_of(to).take(held) =~= state.ids_of(to));
    assert(after.ids_of(to).skip(held) =~= state.ids_of(from));
}

/// A page holds the items from its first position to its last; without a last one, all
/// from the first on. A page with a position that does not exist, or whose last comes
/// before its first, is empty.
pub proof fn law_page_is_what_lies_between(
    items: Seq<u64>,
    start: int,
    end: Option<usize>,
    i: int,
)
    requires
        0 <= start,
    ensures
        match end {
            Some(end) => {
                &&& start <= end < items.len() ==> sequences::page(items, start, Some(end)).len()
                    == end - start + 1
                &&& start <= i <= end < items.len() ==> sequences::page(
                    items,
                    start,
                    Some(end),
                )[i - start] == items[i]
                &&& end >= items.len() || end < start ==> sequences::page(
                    items,
                    start,
                    Some(end),
                ).len() == 0
            },
            None => {
                &&& start <= items.len() ==> sequences::page(items, start, None).len()
                    == items.len() - start
                &&& start <= i < items.len() ==> sequences::page(items, start, None)[i - start]
                    == items[i]
                &&& start >= items.len() ==> sequences::page(items, start, None).len() == 0
            },
        },
{
}

} // verus!
