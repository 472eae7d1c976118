//! What holds of every store, whatever was done to it.
use crate::events::QueueStreamEvent;
use crate::job::{Job, JobOptions, JobState, JobToken};
use crate::outside::{scored_ids, sorted_ids};
use crate::queue::collections;
use crate::queue::{CollectionSuffix, JobField, QueueOpts};
use crate::stores::inmemory_store::{insertion, publishing, records};
use crate::stores::state::{self, JobCounter, StoreState};
use crate::stores::Lock;
use crate::timers::concurrent_timed_map::TimedState;
use crate::utils::scheduling;
use crate::utils::sequences;
use vstd::prelude::*;

verus! {

/// Pausing a queue that holds no paused jobs and resuming it restores the
/// waiting jobs in their order, and the queue is not paused. Nothing else has
/// changed: no other list or set, no job record, no lock and no counter.
pub proof fn law_resume_undoes_pause<D, R, P, M>(state: StoreState<D, R, P, M>)
    requires
        state.paused.items.len() == 0,
    ensures
        ({
            let resumed = state.paused_or_resumed(true).paused_or_resumed(false);
            &&& resumed.waiting.items == state.waiting.items
            &&& resumed.paused.items == state.paused.items
            &&& resumed == (StoreState {
                waiting: resumed.waiting,
                paused: resumed.paused,
                is_paused: false,
                ..state
            })
        }),
{
    let resumed = state.paused_or_resumed(true).paused_or_resumed(false);
    assert(resumed.waiting.items =~= state.waiting.items);
    assert(resumed.paused.items =~= state.paused.items);
}

/// Pausing and resuming lose no job and add none: what waits and what is
/// paused are, taken together, the same jobs as before.
pub proof fn law_pause_loses_no_job<D, R, P, M>(state: StoreState<D, R, P, M>, pause: bool)
    ensures
        (state.paused_or_resumed(pause).waiting.items + state.paused_or_resumed(
            pause,
        ).paused.items).to_multiset() == (state.waiting.items
            + state.paused.items).to_multiset(),
        state.paused_or_resumed(pause).is_paused == pause,
{
    let after = state.paused_or_resumed(pause);
    broadcast use vstd::seq_lib::group_to_multiset_ensures;

    vstd::seq_lib::lemma_multiset_commutative(state.waiting.items, state.paused.items);
    vstd::seq_lib::lemma_multiset_commutative(state.paused.items, state.waiting.items);
    if pause {
        assert(after.waiting.items + after.paused.items =~= state.paused.items
            + state.waiting.items);
    } else {
        assert(after.waiting.items + after.paused.items =~= state.waiting.items
            + state.paused.items);
    }
}

/// A waiting list is served in order: a job that is put at its front does not
/// come before one that waits already, and comes next when none does.
pub proof fn law_waiting_jobs_in_order<D, R, P, M>(state: StoreState<D, R, P, M>, id: u64)
    ensures
        ({
            let after = state.item_added(CollectionSuffix::Wait, id, None, false);
            if state.waiting.items.len() == 0 {
                after.waiting.items == seq![id]
            } else {
                after.waiting.items.last() == state.waiting.items.last()
                    && after.waiting.items.drop_last() == seq![id]
                    + state.waiting.items.drop_last()
            }
        }),
{
    let after = state.item_added(CollectionSuffix::Wait, id, None, false);
    if state.waiting.items.len() == 0 {
        assert(after.waiting.items =~= seq![id]);
    } else {
        assert(after.waiting.items.drop_last() =~= seq![id] + state.waiting.items.drop_last());
    }
}

/// First in, first out: of two plain jobs that are added one after the other,
/// whatever waits already, the first is taken up before the second.
pub proof fn law_first_in_first_out<D, R, P, M>(
    before: StoreState<D, R, P, M>,
    one: JobOptions,
    two: JobOptions,
    pc: u64,
    first: u64,
    second: u64,
    dt: int,
    ts: int,
)
    requires
        insertion::delay_at(one.delay, dt) == 0,
        insertion::delay_at(two.delay, dt) == 0,
        one.priority == 0,
        two.priority == 0,
    ensures
        ({
            let mid = insertion::placed(before, one, pc, first, false, dt, ts);
            let after = insertion::placed(mid, two, pc, second, false, dt, ts);
            after.waiting.items == seq![second, first] + before.waiting.items
        }),
{
    let mid = insertion::placed(before, one, pc, first, false, dt, ts);
    let after = insertion::placed(mid, two, pc, second, false, dt, ts);
    assert(after.waiting.items =~= seq![second, first] + before.waiting.items);
}

/// Moving a job from the tail of one list to the front of another loses no job
/// and adds none: what the two lists hold is, taken together, the same as before.
/// The others stay in their order, and nothing else changes.
pub proof fn law_moved_job_is_in_the_other_list<D, R, P, M>(
    state: StoreState<D, R, P, M>,
    src: CollectionSuffix,
    dst: CollectionSuffix,
)
    requires
        state.can_move(src, dst),
        src != dst,
    ensures
        ({
            let after = state.last_moved(src, dst);
            &&& after.ids_of(dst).first() == state.ids_of(src).last()
            &&& after.ids_of(src) == state.ids_of(src).drop_last()
            &&& after.ids_of(src) + after.ids_of(dst) == state.ids_of(src) + state.ids_of(dst)
            &&& forall|other: CollectionSuffix|
                other != src && other != dst ==> #[trigger] after.ids_of(other) == state.ids_of(
                    other,
                )
            &&& after.jobs == state.jobs && after.locks == state.locks
        }),
{
    let after = state.last_moved(src, dst);
    assert(after.ids_of(src) + after.ids_of(dst) =~= state.ids_of(src) + state.ids_of(dst));
}

/// The job that is taken up next is the one at the tail of the waiting list; it
/// is then among the active ones.
pub proof fn law_taken_job_is_active<D, R, P, M>(state: StoreState<D, R, P, M>)
    requires
        state.waiting.items.len() > 0,
    ensures
        ({
            let after = state.last_moved(CollectionSuffix::Wait, CollectionSuffix::Active);
            &&& state.can_move(CollectionSuffix::Wait, CollectionSuffix::Active)
            &&& after.active.items == seq![state.waiting.items.last()] + state.active.items
            &&& after.waiting.items == state.waiting.items.drop_last()
        }),
{
}

/// A job that is appended to a waiting list is served next, and the others wait
/// in their order.
pub proof fn law_appended_is_served_next<D, R, P, M>(state: StoreState<D, R, P, M>, id: u64)
    ensures
        state.item_added(CollectionSuffix::Wait, id, None, true).waiting.items.last() == id,
        state.item_added(CollectionSuffix::Wait, id, None, true).waiting.items.drop_last()
            == state.waiting.items,
{
    assert(state.waiting.items.push(id).drop_last() =~= state.waiting.items);
}

/// Jobs that are appended to an empty list stand in it in the order in which
/// they were appended.
pub proof fn law_appended_stand_in_order<D, R, P, M>(
    state: StoreState<D, R, P, M>,
    first: u64,
    second: u64,
)
    requires
        state.waiting.items.len() == 0,
    ensures
        state.item_added(CollectionSuffix::Wait, first, None, true).item_added(
            CollectionSuffix::Wait,
            second,
            None,
            true,
        ).waiting.items == seq![first, second],
{
    assert(state.waiting.items.push(first).push(second) =~= seq![first, second]);
}

/// `col` is a list or a set of jobs.
pub open spec fn holds_jobs(col: CollectionSuffix) -> bool {
    match col {
        CollectionSuffix::Active => true,
        CollectionSuffix::Wait => true,
        CollectionSuffix::Paused => true,
        CollectionSuffix::Completed => true,
        CollectionSuffix::Failed => true,
        CollectionSuffix::Prioritized => true,
        CollectionSuffix::Delayed => true,
        CollectionSuffix::Stalled => true,
        _ => false,
    }
}

/// A job that was added to a list or a set, with a score, is in it, and so is
/// every other job that was there, whatever its score.
pub proof fn law_added_is_there<D, R, P, M>(
    state: StoreState<D, R, P, M>,
    col: CollectionSuffix,
    id: u64,
    other: u64,
    score: i64,
    append: bool,
)
    requires
        holds_jobs(col),
        state.in_order(),
    ensures
        state.item_added(col, id, Some(score), append).ids_of(col).contains(id),
        state.ids_of(col).contains(other) ==> state.item_added(
            col,
            id,
            Some(score),
            append,
        ).ids_of(col).contains(other),
{
    let before = state.ids_of(col);
    let after = state.item_added(col, id, Some(score), append);
    let ids = after.ids_of(col);
    match col {
        CollectionSuffix::Active | CollectionSuffix::Wait | CollectionSuffix::Paused => {
            if append {
                assert(ids[ids.len() - 1] == id);
            } else {
                assert(ids[0] == id);
            }
            if before.contains(other) {
                let i = choose|i: int| 0 <= i < before.len() && before[i] == other;
                if append {
                    assert(ids[i] == other);
                } else {
                    assert(ids[i + 1] == other);
                }
            }
        },
        CollectionSuffix::Completed => {
            sequences::lemma_scored_ids(state.completed, score as i128, id);
        },
        CollectionSuffix::Failed => {
            sequences::lemma_scored_ids(state.failed, score as i128, id);
        },
        CollectionSuffix::Prioritized => {
            sequences::lemma_scored_ids(state.prioritized, score as i128, id);
        },
        CollectionSuffix::Delayed => {
            sequences::lemma_scored_ids(state.delayed, score as i128, id);
        },
        CollectionSuffix::Stalled => {
            let lower = |x: u64| x < id;
            let higher = |x: u64| x > id;
            let below = state.stalled.filter(lower);
            let above = state.stalled.filter(higher);
            assert(ids =~= below.push(id) + above);
            assert(ids[below.len() as int] == id);
            if before.contains(other) && other != id {
                if other < id {
                    assert(below.contains(other));
                    let i = choose|i: int| 0 <= i < below.len() && below[i] == other;
                    assert(ids[i] == other);
                } else {
                    assert(higher(other));
                    assert(above.contains(other));
                    let i = choose|i: int| 0 <= i < above.len() && above[i] == other;
                    assert(ids[below.len() + 1 + i] == other);
                }
            }
        },
        _ => {},
    }
}

/// Inserting a job loses no other: what was in a list or a set is still in it.
pub proof fn law_insertion_loses_no_job<D, R, P, M>(
    before: StoreState<D, R, P, M>,
    opts: JobOptions,
    pc: u64,
    id: u64,
    is_paused: bool,
    dt: int,
    ts: int,
    col: CollectionSuffix,
    other: u64,
)
    requires
        before.in_order(),
        before.ids_of(col).contains(other),
    ensures
        insertion::placed(before, opts, pc, id, is_paused, dt, ts).ids_of(col).contains(other),
{
    let ids = before.ids_of(col);
    let after = insertion::placed(before, opts, pc, id, is_paused, dt, ts).ids_of(col);
    let i = choose|i: int| 0 <= i < ids.len() && ids[i] == other;
    if let Some(at) = opts.delay.next_millis(ts) {
        sequences::lemma_scored_ids(before.delayed, (at as i64) as i128, id);
    }
    sequences::lemma_scored_ids(
        before.prioritized,
        scheduling::priority_score(opts.priority, pc) as i128,
        id,
    );
    if after != ids && (col == CollectionSuffix::Wait || col == CollectionSuffix::Paused) {
        assert(after[i + 1] == other);
    }
}

/// A job that was removed from a list or a set is not in it.
pub proof fn law_removed_is_gone<D, R, P, M>(
    state: StoreState<D, R, P, M>,
    col: CollectionSuffix,
    id: u64,
)
    requires
        holds_jobs(col),
    ensures
        !state.item_removed(col, id).ids_of(col).contains(id),
        state.item_removed(col, id).ids_of(col) == sequences::without_id(state.ids_of(col), id),
{
    sequences::lemma_values_without(state.completed, id);
    sequences::lemma_values_without(state.failed, id);
    sequences::lemma_values_without(state.prioritized, id);
    sequences::lemma_values_without(state.delayed, id);
    sequences::lemma_filter_elements(state.ids_of(col), sorted_ids::other_than(id));
    let left = sequences::without_id(state.ids_of(col), id);
    assert(state.item_removed(col, id).ids_of(col) == left);
    if left.contains(id) {
        let i = choose|i: int| 0 <= i < left.len() && left[i] == id;
        assert(sorted_ids::other_than(id)(left[i]));
    }
}

/// Adding or removing an item leaves the other collections, the records and
/// the locks alone.
pub proof fn law_items_leave_records_alone<D, R, P, M>(
    state: StoreState<D, R, P, M>,
    col: CollectionSuffix,
    other: CollectionSuffix,
    id: u64,
    score: Option<i64>,
    append: bool,
)
    requires
        holds_jobs(col),
        other != col,
    ensures
        state.item_added(col, id, score, append).ids_of(other) == state.ids_of(other),
        state.item_removed(col, id).ids_of(other) == state.ids_of(other),
        state.item_added(col, id, score, append).jobs == state.jobs,
        state.item_added(col, id, score, append).locks == state.locks,
        state.item_removed(col, id).jobs == state.jobs,
        state.item_removed(col, id).locks == state.locks,
{
}

/// Of two entries in order, the one with the lower score stands first.
proof fn lemma_lower_score_first(entries: Seq<(i128, u64)>, a: (i128, u64), b: (i128, u64))
    requires
        scored_ids::ascending(entries),
        entries.contains(a),
        entries.contains(b),
        a.0 < b.0,
    ensures
        sequences::stands_before(entries, a, b),
{
    let i = choose|i: int| 0 <= i < entries.len() && entries[i] == a;
    let j = choose|j: int| 0 <= j < entries.len() && entries[j] == b;
    if j <= i {
        assert(j == i || scored_ids::comes_before(entries[j], entries[i]));
    }
    assert(entries[i] == a && entries[j] == b);
}

/// Of two jobs with a priority, the one with the lower priority value stands
/// first, whichever of them was added first and whatever else is in the set. The
/// set is emptied from its front.
pub proof fn law_priority_decides<D, R, P, M>(
    state: StoreState<D, R, P, M>,
    p: u64,
    q: u64,
    c: u64,
    d: u64,
    first: u64,
    second: u64,
)
    requires
        scored_ids::ascending(state.prioritized),
        p < q < 0x1_0000_0000,
        c < 0x1_0000_0000,
        scheduling::priority_score(q, d) <= u64::MAX,
    ensures
        ({
            let low = scheduling::priority_score(p, c) as i128;
            let high = scheduling::priority_score(q, d) as i128;
            &&& sequences::stands_before(
                scored_ids::scored(scored_ids::scored(state.prioritized, high, second), low, first),
                (low, first),
                (high, second),
            )
            &&& sequences::stands_before(
                scored_ids::scored(scored_ids::scored(state.prioritized, low, first), high, second),
                (low, first),
                (high, second),
            )
        }),
{
    scheduling::law_lower_priority_runs_first(p, q, c, d);
    let low = scheduling::priority_score(p, c) as i128;
    let high = scheduling::priority_score(q, d) as i128;
    let one = scored_ids::scored(state.prioritized, low, first);
    let two = scored_ids::scored(state.prioritized, high, second);
    sequences::lemma_scored_entries(state.prioritized, low, first);
    sequences::lemma_scored_entries(state.prioritized, high, second);
    sequences::lemma_scored_entries(two, low, first);
    sequences::lemma_scored_entries(one, high, second);
    lemma_lower_score_first(
        scored_ids::scored(two, low, first),
        (low, first),
        (high, second),
    );
    lemma_lower_score_first(
        scored_ids::scored(one, high, second),
        (low, first),
        (high, second),
    );
}

/// A lock is held with its token until it expires, and with none from then on.
pub proof fn law_lock_until_it_expires<D, R, P, M>(
    state: StoreState<D, R, P, M>,
    id: u64,
    token: JobToken,
    expires_at: u128,
    now: u128,
)
    requires
        !state.locks.disabled,
    ensures
        ({
            let locks = state.locks.with_expirable(
                records::lock_key(id),
                records::lock_with(Some(token)),
                expires_at,
            );
            &&& locks.live(records::lock_key(id), now) <==> now < expires_at
            &&& records::token_of(locks.entries[records::lock_key(id)].value()) == Some(token)
        }),
{
}

/// Metrics that were stored are there for as long as they are to be kept, counted
/// from when they were stored last, and no longer.
pub proof fn law_metrics_live_as_long_as_asked<V>(
    before: TimedState<V>,
    key: u128,
    metrics: V,
    now: u128,
    ttl_ms: u64,
    later: u128,
)
    requires
        !before.disabled,
        now + ttl_ms * 1_000_000 <= u128::MAX,
    ensures
        ({
            let after = publishing::metrics_stored(before, key, metrics, now, ttl_ms);
            &&& after.live(key, later) <==> later < now + ttl_ms * 1_000_000
            &&& after.entries[key].value() == metrics
        }),
{
}

/// The locks and the records of different jobs do not get in each other's way,
/// as long as ids fit in 56 bits.
pub proof fn law_keys_are_apart(a: u64, b: u64)
    requires
        a < collections::PAYLOAD_LIMIT,
        b < collections::PAYLOAD_LIMIT,
    ensures
        records::job_key(a) == records::job_key(b) ==> a == b,
        records::lock_key(a) == records::lock_key(b) ==> a == b,
        records::job_key(a) != records::lock_key(b),
        records::lock_key(a) != state::key_of(CollectionSuffix::StalledCheck),
{
    collections::law_from_tag_undoes_tag(CollectionSuffix::Job(a));
    collections::law_from_tag_undoes_tag(CollectionSuffix::Job(b));
    collections::law_from_tag_undoes_tag(CollectionSuffix::Lock(a));
    collections::law_from_tag_undoes_tag(CollectionSuffix::Lock(b));
    collections::law_from_tag_undoes_tag(CollectionSuffix::StalledCheck);
}

/// A job that was inserted has a record at any time, which says what the job
/// says and carries its id.
pub proof fn law_inserted_has_a_record<D: Clone, R: Clone, P: Clone, M>(
    before: StoreState<D, R, P, M>,
    job: Job<D, R, P>,
    opts: JobOptions,
    pc: u64,
    id: u64,
    name: Seq<char>,
    is_paused: bool,
    dt: int,
    ts: int,
    result: crate::error::KioResult<crate::events::QueueStreamEvent<R, P>>,
    after: StoreState<D, R, P, M>,
    job_after: Job<D, R, P>,
    now: u128,
)
    requires
        insertion::inserted(
            before,
            job,
            opts,
            pc,
            id,
            name,
            is_paused,
            dt,
            ts,
            result,
            after,
            job_after,
        ),
        result is Ok,
    ensures
        after.jobs.live(records::job_key(id), now),
        after.jobs.entries[records::job_key(id)].value().copy_of(job_after),
        after.jobs.entries[records::job_key(id)].value().id == Some(id),
{
}

/// A job without delay and priority waits, and is not held back, while the
/// queue is not paused.
pub proof fn law_plain_job_waits<D, R, P, M>(
    before: StoreState<D, R, P, M>,
    opts: JobOptions,
    pc: u64,
    id: u64,
    dt: int,
    ts: int,
)
    requires
        insertion::delay_at(opts.delay, dt) == 0,
        opts.priority == 0,
    ensures
        insertion::placed(before, opts, pc, id, false, dt, ts).waiting.items.contains(id),
        insertion::placed(before, opts, pc, id, true, dt, ts).paused.items.contains(id),
        insertion::placed(before, opts, pc, id, true, dt, ts).waiting == before.waiting,
{
    assert(insertion::placed(before, opts, pc, id, false, dt, ts).waiting.items[0] == id);
    assert(insertion::placed(before, opts, pc, id, true, dt, ts).paused.items[0] == id);
}

/// A delayed job is put among the delayed ones, under the time that its delay
/// leads to, whatever its priority and whether or not the queue is paused. No other
/// list or set changes.
pub proof fn law_delayed_job_is_delayed<D, R, P, M>(
    before: StoreState<D, R, P, M>,
    opts: JobOptions,
    pc: u64,
    id: u64,
    is_paused: bool,
    dt: int,
    ts: int,
)
    requires
        before.in_order(),
        insertion::delay_at(opts.delay, dt) > 0,
        opts.delay.next_millis(ts) is Some,
    ensures
        insertion::score_fits(opts, pc, dt),
        ({
            let after = insertion::placed(before, opts, pc, id, is_paused, dt, ts);
            &&& after.delayed.contains(((opts.delay.next_millis(ts)->0) as i64 as i128, id))
            &&& after == (StoreState { delayed: after.delayed, ..before })
        }),
{
    sequences::lemma_scored_entries(
        before.delayed,
        (opts.delay.next_millis(ts)->0) as i64 as i128,
        id,
    );
}

/// After the collections were cleared no job is in any of them, and the queue
/// has no work; the records stay.
pub proof fn law_cleared_has_no_work<D, R, P, M>(
    state: StoreState<D, R, P, M>,
    col: CollectionSuffix,
)
    ensures
        state.collections_cleared().ids_of(col).len() == 0,
        !state.collections_cleared().metrics().has_work(),
        state.collections_cleared().jobs == state.jobs,
{
}

/// The jobs of a bulk get the next ids, one after the other, but for those whose
/// options give them one, and each event names its job. Past the largest id there
/// is none.
pub proof fn law_bulk_ids_are_consecutive<D: Clone, R: Clone, P: Clone, M>(
    before: StoreState<D, R, P, M>,
    items: Seq<(String, Option<JobOptions>, D)>,
    queue_opts: QueueOpts,
    is_paused: bool,
    added: Seq<(Job<D, R, P>, QueueStreamEvent<R, P>)>,
    after: StoreState<D, R, P, M>,
)
    requires
        insertion::items_added(before, items, queue_opts, is_paused, added, after),
        before.id_counter + added.len() <= u64::MAX,
    ensures
        after.id_counter == before.id_counter + added.len(),
        forall|i: int|
            0 <= i < added.len() ==> (#[trigger] added[i]).0.id == Some(added[i].1.job_id)
                && added[i].1.job_id == insertion::given_id(
                insertion::effective_opts(queue_opts, items[i].1),
                (before.id_counter + i + 1) as u64,
            ),
    decreases added.len(),
{
    if added.len() > 0 {
        let mid = choose|mid: StoreState<D, R, P, M>|
            insertion::items_added(before, items, queue_opts, is_paused, added.drop_last(), mid)
                && #[trigger] insertion::item_handled(
                mid,
                items[added.len() - 1],
                queue_opts,
                is_paused,
                Ok(added.last()),
                after,
            );
        law_bulk_ids_are_consecutive(before, items, queue_opts, is_paused, added.drop_last(), mid);
        assert forall|i: int| 0 <= i < added.len() implies (#[trigger] added[i]).0.id == Some(
            added[i].1.job_id,
        ) && added[i].1.job_id == insertion::given_id(
            insertion::effective_opts(queue_opts, items[i].1),
            (before.id_counter + i + 1) as u64,
        ) by {
            if i < added.len() - 1 {
                assert(added.drop_last()[i] == added[i]);
            }
        }
    }
}

/// A counter that was added to is read back with its new value, at once and for
/// as long as nothing else is done: a counter of a job while its record lives, and
/// under the name in lower case of the same counter.
pub proof fn law_incremented_is_read_back<D, R, P, M>(
    before: StoreState<D, R, P, M>,
    key: CollectionSuffix,
    delta: i64,
    field: Option<Seq<char>>,
    lower: Option<Seq<char>>,
    now: u128,
    later: u128,
    next: u64,
    mid: StoreState<D, R, P, M>,
    value: Option<u64>,
    after: StoreState<D, R, P, M>,
)
    requires
        match key {
            CollectionSuffix::Id
            | CollectionSuffix::PriorityCounter
            | CollectionSuffix::Meta => true,
            CollectionSuffix::Job(_) => {
                &&& before.jobs.live(state::key_of(key), now)
                &&& before.jobs.live(state::key_of(key), later)
                &&& field is Some && lower is Some
                &&& JobCounter::of_field(field->0) is Some
                &&& JobCounter::of_lowercase(lower->0) == JobCounter::of_field(field->0)
            },
            _ => false,
        },
        records::incremented(before, key, delta, field, now, next, mid),
        records::counter_read(mid, key, lower, later, value, after),
    ensures
        value == Some(next),
{
}

/// Fields that were written to the record of a job are in it, its expiry stays,
/// and so do the records of the other jobs. A state that was written last is the
/// job's state.
pub proof fn law_written_fields_are_there<D, R, P, M>(
    before: StoreState<D, R, P, M>,
    id: u64,
    fields: Seq<JobField<R>>,
    now: u128,
    after: StoreState<D, R, P, M>,
    other: u128,
)
    requires
        before.jobs.live(records::job_key(id), now),
        records::fields_stored(before, id, fields, now, after),
    ensures
        state::fields_applied(
            before.jobs.entries[records::job_key(id)].value(),
            fields,
            after.jobs.entries[records::job_key(id)].value(),
        ),
        forall|later: u128|
            after.jobs.live(records::job_key(id), later) == #[trigger] before.jobs.live(
                records::job_key(id),
                later,
            ),
        other != records::job_key(id) && before.jobs.entries.dom().contains(other)
            ==> after.jobs.entries.dom().contains(other) && after.jobs.entries[other]
            == before.jobs.entries[other],
        fields.len() > 0 && fields.last() is State ==> after.jobs.entries[records::job_key(
            id,
        )].value().state == fields.last()->State_0,
{
}

/// No delayed job is lost and none comes out twice: each is due, or has missed its
/// time, or stays.
pub proof fn law_no_delayed_job_is_lost(delayed: Seq<(i128, u64)>, start: i128, stop: i128)
    ensures
        ({
            let due = delayed.filter(sequences::between_scores(start, stop));
            let missed = delayed.filter(sequences::below_score(start));
            let left = delayed.filter(sequences::not_due(start, stop));
            (due + missed + left).to_multiset() == delayed.to_multiset()
        }),
    decreases delayed.len(),
{
    broadcast use vstd::seq_lib::group_to_multiset_ensures;

    reveal(Seq::filter);
    let due = delayed.filter(sequences::between_scores(start, stop));
    let missed = delayed.filter(sequences::below_score(start));
    let left = delayed.filter(sequences::not_due(start, stop));
    vstd::seq_lib::lemma_multiset_commutative(due, missed);
    vstd::seq_lib::lemma_multiset_commutative(due + missed, left);
    if delayed.len() > 0 {
        let rest = delayed.drop_last();
        law_no_delayed_job_is_lost(rest, start, stop);
        let rest_due = rest.filter(sequences::between_scores(start, stop));
        let rest_missed = rest.filter(sequences::below_score(start));
        let rest_left = rest.filter(sequences::not_due(start, stop));
        vstd::seq_lib::lemma_multiset_commutative(rest_due, rest_missed);
        vstd::seq_lib::lemma_multiset_commutative(rest_due + rest_missed, rest_left);
        assert(delayed =~= rest.push(delayed.last()));
        assert((due + missed + left).to_multiset() =~= delayed.to_multiset());
    } else {
        assert(due + missed + left =~= delayed);
    }
}

/// The sorted set that the jobs in a state are in.
pub open spec fn entries_in_state<D, R, P, M>(
    state: StoreState<D, R, P, M>,
    of: JobState,
) -> Option<Seq<(i128, u64)>> {
    match of {
        JobState::Completed => Some(state.completed),
        JobState::Failed => Some(state.failed),
        JobState::Prioritized => Some(state.prioritized),
        JobState::Delayed => Some(state.delayed),
        _ => None,
    }
}

/// A page of the jobs in a state is a stretch of them, from the first position
/// to the last. Those of a sorted set come by ascending score, and by ascending id
/// under one score; the stalled ones come by ascending id.
pub proof fn law_pages_are_in_order<D, R, P, M>(
    state: StoreState<D, R, P, M>,
    of: JobState,
    first: int,
    last: usize,
)
    requires
        state.in_order(),
        0 <= first <= last < state.ids_in(of).len(),
    ensures
        ({
            let page = sequences::page(state.ids_in(of), first, Some(last));
            &&& page.len() == last - first + 1
            &&& forall|i: int|
                0 <= i < page.len() ==> #[trigger] page[i] == state.ids_in(of)[first + i]
            &&& entries_in_state(state, of) matches Some(entries) ==> forall|i: int, j: int|
                #![trigger page[i], page[j]]
                0 <= i < j < page.len() ==> entries[first + i].1 == page[i] && entries[first + j].1
                    == page[j] && scored_ids::comes_before(entries[first + i], entries[first + j])
            &&& of == JobState::Stalled ==> sorted_ids::ascending_ids(page)
        }),
{
}

/// Two pages that follow each other make up all the jobs in a state, each of them
/// once and in their order.
pub proof fn law_pages_make_up_the_whole<D, R, P, M>(
    state: StoreState<D, R, P, M>,
    of: JobState,
    last: usize,
)
    requires
        last < state.ids_in(of).len(),
    ensures
        sequences::page(state.ids_in(of), 0, Some(last)) + sequences::page(
            state.ids_in(of),
            last + 1,
            None,
        ) == state.ids_in(of),
{
    let ids = state.ids_in(of);
    assert(sequences::page(ids, 0, Some(last)) + sequences::page(ids, last + 1, None) =~= ids);
}

} // verus!
