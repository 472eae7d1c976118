//! What holds of the stored collections.
use super::collections;
use super::insertion::{self, BatchState, Counters};
use super::numbers;
use super::RocksDbStore;
use crate::error::{KioError, KioResult};
use crate::events::QueueStreamEvent;
use crate::job::{Job, JobDelay, JobOptions, JobState};
use crate::outside::json;
use crate::outside::scored_ids;
use crate::queue::{CollectionSuffix, QueueMetrics, QueueOpts};
use crate::stores::inmemory_store::insertion as placing;
use crate::stores::redis_store::operations;
use crate::time::Dt;
use crate::utils::id_set;
use crate::utils::sequences;
use vstd::prelude::*;

verus! {

/// What is stored in a collection after an item was added to a list is read
/// back with the item at its end, unless it is too long to be read.
pub proof fn law_added_to_list_is_there(
    col: CollectionSuffix,
    bytes: Vec<u8>,
    ids: Seq<u64>,
    item: u64,
    append: bool,
)
    requires
        operations::is_list(col),
        bytes@.len() <= json::LONGEST_INPUT,
        collections::holds_list(
            bytes@,
            if append {
                ids.push(item)
            } else {
                seq![item] + ids
            },
        ),
    ensures
        collections::ids_in(col, Some(bytes)).contains(item),
        collections::ids_in(col, Some(bytes)).len() == ids.len() + 1,
{
    let now = collections::ids_in(col, Some(bytes));
    if append {
        assert(now[ids.len() as int] == item);
    } else {
        assert(now[0] == item);
    }
}

/// What is stored after an item was put under a score is read back with the
/// item, and with every other item that was there, whatever its score, unless it
/// is too long to be read.
pub proof fn law_scored_is_there(
    col: CollectionSuffix,
    bytes: Vec<u8>,
    entries: Seq<(i128, u64)>,
    score: i128,
    item: u64,
    other: u64,
)
    requires
        operations::is_scored(col),
        bytes@.len() <= json::LONGEST_INPUT,
        scored_ids::ascending(entries),
        collections::holds_entries(bytes@, scored_ids::scored(entries, score, item)),
    ensures
        collections::ids_in(col, Some(bytes)).contains(item),
        sequences::values_of(entries).contains(other) ==> collections::ids_in(
            col,
            Some(bytes),
        ).contains(other),
{
    sequences::lemma_scored_ids(entries, score, item);
}

/// Jobs that are put among others, one after the other, leave the set in order
/// and lose none: each job that was there and each that was added is there.
pub proof fn law_submission_loses_no_job(
    entries: Seq<(i128, u64)>,
    added: Seq<(i128, u64)>,
    id: u64,
)
    requires
        scored_ids::ascending(entries),
    ensures
        scored_ids::ascending(sequences::all_scored(entries, added)),
        sequences::values_of(entries).contains(id) || sequences::values_of(added).contains(id)
            ==> sequences::values_of(sequences::all_scored(entries, added)).contains(id),
    decreases added.len(),
{
    if added.len() > 0 {
        let rest = added.drop_last();
        law_submission_loses_no_job(entries, rest, id);
        let mid = sequences::all_scored(entries, rest);
        sequences::lemma_scored_entries(mid, added.last().0, added.last().1);
        sequences::lemma_scored_ids(mid, added.last().0, added.last().1);
        if sequences::values_of(added).contains(id) && id != added.last().1 {
            let values = sequences::values_of(added);
            let i = choose|i: int| 0 <= i < values.len() && values[i] == id;
            assert(sequences::values_of(rest)[i] == id);
        }
    }
}

/// What is stored after an item was added to the stalled jobs is read back with
/// the item, unless it is too long to be read.
pub proof fn law_stalled_is_there(bytes: Vec<u8>, ids: Seq<u64>, item: u64)
    requires
        bytes@.len() <= json::LONGEST_INPUT,
        collections::holds_set(bytes@, id_set::with_id(ids, item)),
    ensures
        collections::ids_in(CollectionSuffix::Stalled, Some(bytes)).contains(item),
{
    let now = id_set::with_id(ids, item);
    let at = ids.filter(|other: u64| other < item).len() as int;
    assert(now[at] == item);
}

/// What is stored after an item was removed from a list is read back without
/// it, unless it is too long to be read.
pub proof fn law_removed_from_list_is_gone(
    col: CollectionSuffix,
    bytes: Vec<u8>,
    ids: Seq<u64>,
    item: u64,
)
    requires
        operations::is_list(col),
        bytes@.len() <= json::LONGEST_INPUT,
        collections::holds_list(bytes@, sequences::without_id(ids, item)),
    ensures
        !collections::ids_in(col, Some(bytes)).contains(item),
{
    sequences::lemma_filter_elements(ids, crate::outside::sorted_ids::other_than(item));
}

/// What is stored after an item was removed from a sorted set is read back
/// without it, unless it is too long to be read.
pub proof fn law_removed_from_scores_is_gone(
    col: CollectionSuffix,
    bytes: Vec<u8>,
    entries: Seq<(i128, u64)>,
    item: u64,
)
    requires
        operations::is_scored(col),
        bytes@.len() <= json::LONGEST_INPUT,
        collections::holds_entries(bytes@, sequences::without_value(entries, item)),
    ensures
        !collections::ids_in(col, Some(bytes)).contains(item),
{
    let left = sequences::without_value(entries, item);
    sequences::lemma_filter_elements(entries, sequences::other_value::<i128>(item));
    assert forall|i: int| 0 <= i < left.len() implies sequences::values_of(left)[i] != item by {
        assert(sequences::other_value::<i128>(item)(left[i]));
    }
}

/// The jobs of a bulk get the next ids, one after the other, but for those whose
/// options give them one, and each event names its job.
pub proof fn law_gathered_ids_are_consecutive<D, R, P>(
    before: (BatchState, Counters),
    items: Seq<(String, Option<JobOptions>, D)>,
    queue_opts: QueueOpts,
    queue_name: Seq<char>,
    is_paused: bool,
    added: Seq<(Job<D, R, P>, QueueStreamEvent<R, P>)>,
    after: (BatchState, Counters),
)
    requires
        insertion::items_gathered(
            before,
            items,
            queue_opts,
            queue_name,
            is_paused,
            added,
            after,
        ),
    ensures
        after.1.id == before.1.id + added.len(),
        forall|i: int|
            0 <= i < added.len() ==> (#[trigger] added[i]).0.id == Some(added[i].1.job_id)
                && added[i].1.job_id == placing::given_id(
                placing::effective_opts(queue_opts, items[i].1),
                (before.1.id + i + 1) as u64,
            ),
    decreases added.len(),
{
    if added.len() > 0 {
        let mid = choose|mid: (BatchState, Counters)|
            insertion::items_gathered(
                before,
                items,
                queue_opts,
                queue_name,
                is_paused,
                added.drop_last(),
                mid,
            ) && #[trigger] insertion::item_handled(
                mid,
                items[added.len() - 1],
                queue_opts,
                queue_name,
                is_paused,
                Ok(added.last()),
                after,
            );
        law_gathered_ids_are_consecutive(
            before,
            items,
            queue_opts,
            queue_name,
            is_paused,
            added.drop_last(),
            mid,
        );
        assert forall|i: int| 0 <= i < added.len() implies (#[trigger] added[i]).0.id == Some(
            added[i].1.job_id,
        ) && added[i].1.job_id == placing::given_id(
            placing::effective_opts(queue_opts, items[i].1),
            (before.1.id + i + 1) as u64,
        ) by {
            if i < added.len() - 1 {
                assert(added.drop_last()[i] == added[i]);
            }
        }
    }
}

/// An entry that was stored as a row is read back, whatever its score: a score below
/// zero goes in the first place of the row, any other in the second, and the id in the
/// third.
pub proof fn law_rows_are_read_back(entries: Seq<(i128, u64)>, entry: (i128, u64))
    requires
        sequences::scores_fit(entries),
        sequences::score_fits(entry.0),
    ensures
        collections::entry_of(collections::row_of(entry)) == entry,
        entry.0 < 0 ==> collections::row_of(entry) == (entry.0 as i64, 0u64, entry.1),
        entry.0 >= 0 ==> collections::row_of(entry) == (0i64, entry.0 as u64, entry.1),
        collections::entries_of(collections::rows_of(entries)) == entries,
        collections::rows_of(entries).len() == entries.len(),
{
    assert forall|i: int| 0 <= i < entries.len() implies collections::entries_of(
        collections::rows_of(entries),
    )[i] == entries[i] by {
        assert(sequences::score_fits(entries[i].0));
    }
    assert(collections::entries_of(collections::rows_of(entries)) =~= entries);
}

/// In the older form each id lies under its score.
pub proof fn law_older_form_is_read(pairs: Seq<(u64, u64)>, i: int)
    requires
        0 <= i < pairs.len(),
    ensures
        collections::entries_of_map(pairs).len() == pairs.len(),
        collections::entries_of_map(pairs)[i].0 == pairs[i].0,
        collections::entries_of_map(pairs)[i].1 == pairs[i].1,
{
}

/// What is stored in a collection is read by its kind: a list as it stands, a sorted set
/// by its entries, the stalled jobs as a set. Where nothing is stored there is nothing,
/// and what holds no jobs has none.
pub proof fn law_collections_are_read_by_their_kind(col: CollectionSuffix, bytes: Vec<u8>)
    ensures
        collections::ids_in(col, None).len() == 0,
        col is Wait || col is Active || col is Paused ==> collections::ids_in(col, Some(bytes))
            == collections::list_in(Some(bytes)),
        col is Completed || col is Failed || col is Prioritized || col is Delayed
            ==> collections::ids_in(col, Some(bytes)) == sequences::values_of(
            collections::entries_in(Some(bytes)),
        ),
        col is Stalled ==> collections::ids_in(col, Some(bytes)) == collections::set_in(
            Some(bytes),
        ),
        !crate::stores::laws::holds_jobs(col) ==> collections::ids_in(col, Some(bytes)).len() == 0,
        json::json_list(bytes@) matches Some(ids) ==> collections::list_in(Some(bytes)) == ids,
        json::json_set(bytes@) matches Some(ids) ==> collections::set_in(Some(bytes)) == ids,
        collections::entries_read(bytes@) matches Some(entries) ==> collections::entries_in(
            Some(bytes),
        ) == entries,
{
}

/// The jobs in a state are those of the collection that the state is named after.
pub proof fn law_states_are_read_from_their_collections(stored: Option<Vec<u8>>)
    ensures
        collections::ids_in_state(JobState::Wait, stored) == collections::ids_in(
            CollectionSuffix::Wait,
            stored,
        ),
        collections::ids_in_state(JobState::Active, stored) == collections::ids_in(
            CollectionSuffix::Active,
            stored,
        ),
        collections::ids_in_state(JobState::Paused, stored) == collections::ids_in(
            CollectionSuffix::Paused,
            stored,
        ),
        collections::ids_in_state(JobState::Stalled, stored) == collections::ids_in(
            CollectionSuffix::Stalled,
            stored,
        ),
        collections::ids_in_state(JobState::Completed, stored) == collections::ids_in(
            CollectionSuffix::Completed,
            stored,
        ),
        collections::ids_in_state(JobState::Failed, stored) == collections::ids_in(
            CollectionSuffix::Failed,
            stored,
        ),
        collections::ids_in_state(JobState::Delayed, stored) == collections::ids_in(
            CollectionSuffix::Delayed,
            stored,
        ),
        collections::ids_in_state(JobState::Prioritized, stored) == collections::ids_in(
            CollectionSuffix::Prioritized,
            stored,
        ),
        collections::ids_in_state(JobState::Resumed, stored).len() == 0,
        collections::ids_in_state(JobState::Progress, stored).len() == 0,
        collections::ids_in_state(JobState::Obliterated, stored).len() == 0,
        collections::ids_in_state(JobState::Processing, stored).len() == 0,
{
}

/// A job is gathered in one place, with its id: one that is delayed by some milliseconds
/// among the delayed ones, under the time that lies so much ahead; one with a priority
/// among the prioritized ones, under its priority above its counter; any other before
/// those gathered so far. The other places stay as they are.
pub proof fn law_job_is_gathered_in_one_place(
    before: BatchState,
    opts: JobOptions,
    ms: i64,
    pc: u64,
    id: u64,
    dt: int,
    ts: int,
)
    requires
        scored_ids::ascending(before.delayed),
        scored_ids::ascending(before.prioritized),
        opts.delay == JobDelay::TimeMilis(ms),
        ms >= 0,
        i64::MIN <= ts / 1_000_000 + ms <= i64::MAX,
    ensures
        ({
            let after = insertion::gathered(before, opts, pc, id, dt, ts);
            &&& ms > 0 ==> {
                &&& after.delayed.contains(((ts / 1_000_000 + ms) as i128, id))
                &&& after == (BatchState { delayed: after.delayed, ..before })
            }
            &&& ms == 0 && 0 < opts.priority < 0x1_0000_0000 && pc < 0x1_0000_0000 ==> {
                &&& after.prioritized.contains(((opts.priority * 0x1_0000_0000 + pc) as i128, id))
                &&& after == (BatchState { prioritized: after.prioritized, ..before })
            }
            &&& ms == 0 && opts.priority == 0 ==> after == (BatchState {
                list: seq![id] + before.list,
                ..before
            })
        }),
{
    assert((ts + ms * 1_000_000) / 1_000_000 == ts / 1_000_000 + ms) by (nonlinear_arith);
    sequences::lemma_scored_entries(before.delayed, (ts / 1_000_000 + ms) as i128, id);
    sequences::lemma_scored_entries(
        before.prioritized,
        crate::utils::scheduling::priority_score(opts.priority, pc) as i128,
        id,
    );
}

/// A job whose delay is too short is refused and not gathered; any other is gathered
/// under its id, takes over its options, and is otherwise what it was.
pub proof fn law_gathered_job_keeps_what_it_says<D, R, P>(
    before: BatchState,
    job: Job<D, R, P>,
    opts: JobOptions,
    ms: i64,
    pc: u64,
    id: u64,
    name: Seq<char>,
    is_paused: bool,
    dt: int,
    ts: int,
    result: KioResult<QueueStreamEvent<R, P>>,
    after: BatchState,
    job_after: Job<D, R, P>,
)
    requires
        insertion::job_gathered(
            before,
            job,
            opts,
            pc,
            id,
            name,
            is_paused,
            dt,
            ts,
            result,
            after,
            job_after,
        ),
        opts.delay == JobDelay::TimeMilis(ms),
        ms >= 0,
    ensures
        1 <= ms < crate::worker::MIN_DELAY_MS_LIMIT ==> result is Err && after == before,
        ms == 0 || ms >= crate::worker::MIN_DELAY_MS_LIMIT ==> {
            &&& result matches Ok(event) && event.job_id == id
            &&& after == insertion::gathered(before, opts, pc, id, dt, ts)
            &&& job_after.id == Some(id) && job_after.opts == opts
            &&& job_after.priority == opts.priority && job_after.data == job.data
            &&& job_after.name == job.name && job_after.ts == job.ts
            &&& job_after.attempts_made == job.attempts_made
        },
{
}

/// Every job is counted: the id counter goes up by one, and the priority counter does
/// for a job with a priority and for no other. A counter that is used up counts no
/// more.
pub proof fn law_every_job_is_counted(before: Counters, opts: JobOptions)
    ensures
        before.id < u64::MAX && opts.priority == 0 ==> insertion::counted(before, opts) == Some(
            Counters { id: (before.id + 1) as u64, priority: before.priority },
        ),
        before.id < u64::MAX && opts.priority > 0 && before.priority < u64::MAX
            ==> insertion::counted(before, opts) == Some(
            Counters { id: (before.id + 1) as u64, priority: (before.priority + 1) as u64 },
        ),
        before.id == u64::MAX ==> insertion::counted(before, opts) is None,
        opts.priority > 0 && before.priority == u64::MAX ==> insertion::counted(
            before,
            opts,
        ) is None,
        opts.priority > 0 ==> insertion::priority_counter(before, opts) == before.priority,
        opts.priority == 0 ==> insertion::priority_counter(before, opts) == 0,
{
}

/// The counts of what is stored are the lengths of the collections: a queue that holds
/// a job that waits, is prioritized, delayed or stalled has work.
pub proof fn law_stored_jobs_are_work(
    stored: collections::StoredQueue,
    metrics: QueueMetrics,
    id: u64,
)
    requires
        stored.counts_are(metrics),
    ensures
        metrics.waiting == collections::ids_in(CollectionSuffix::Wait, stored.waiting).len(),
        metrics.prioritized == collections::ids_in(
            CollectionSuffix::Prioritized,
            stored.prioritized,
        ).len(),
        metrics.delayed == collections::ids_in(CollectionSuffix::Delayed, stored.delayed).len(),
        metrics.stalled == collections::ids_in(CollectionSuffix::Stalled, stored.stalled).len(),
        metrics.active == collections::ids_in(CollectionSuffix::Active, stored.active).len(),
        metrics.paused == collections::ids_in(CollectionSuffix::Paused, stored.paused).len(),
        metrics.completed == collections::ids_in(
            CollectionSuffix::Completed,
            stored.completed,
        ).len(),
        metrics.failed == collections::ids_in(CollectionSuffix::Failed, stored.failed).len(),
        collections::ids_in(CollectionSuffix::Wait, stored.waiting).contains(id)
            || collections::ids_in(CollectionSuffix::Prioritized, stored.prioritized).contains(id)
            || collections::ids_in(CollectionSuffix::Delayed, stored.delayed).contains(id)
            || collections::ids_in(CollectionSuffix::Stalled, stored.stalled).contains(id)
            ==> metrics.has_work() && !metrics.idle(),
        stored.meta matches Some(meta) ==> metrics.processing == meta.processing
            && metrics.is_paused == meta.paused,
        stored.meta is None ==> metrics.processing == 0 && !metrics.is_paused,
        stored.id is None ==> metrics.last_id == 0,
{
    crate::queue::metrics::law_work_is_what_waits(metrics);
    crate::queue::metrics::law_idle_is_nothing_to_do(metrics, metrics);
}

/// The collections of a new queue are empty, and its counters stand at zero; the list of
/// paused jobs and the metadata of a cleared queue are gone.
pub proof fn law_new_queue_is_empty(
    values: Seq<(CollectionSuffix, Vec<u8>)>,
    changes: Seq<(CollectionSuffix, collections::Change)>,
    i: int,
)
    requires
        collections::initial(values),
        forall|k: int| 0 <= k < values.len() ==> (#[trigger] values[k]).1@.len()
            <= json::LONGEST_INPUT,
        0 <= i < values.len(),
    ensures
        collections::ids_in(values[i].0, Some(values[i].1)).len() == 0,
        values[i].0 is Id || values[i].0 is PriorityCounter ==> numbers::stored_count(values[i].1@)
            == 0,
        collections::empties(changes) ==> changes.len() == 11 && changes[9] == (
            CollectionSuffix::Paused,
            collections::Change::Delete,
        ) && changes[10] == (CollectionSuffix::Meta, collections::Change::Delete) && changes[i].0
            == values[i].0 && changes[i].1 is Put,
{
    assert(values[0].1@.len() <= json::LONGEST_INPUT);
    assert(values[1].1@.len() <= json::LONGEST_INPUT);
    assert(values[2].1@.len() <= json::LONGEST_INPUT);
    assert(values[3].1@.len() <= json::LONGEST_INPUT);
    assert(values[4].1@.len() <= json::LONGEST_INPUT);
    assert(values[5].1@.len() <= json::LONGEST_INPUT);
    assert(values[6].1@.len() <= json::LONGEST_INPUT);
    if collections::empties(changes) {
        let other = choose|other: Seq<(CollectionSuffix, Vec<u8>)>| #[trigger]
            collections::initial(other) && changes =~= Seq::new(
                9,
                |i: int| (other[i].0, collections::Change::Put(other[i].1)),
            ).push((CollectionSuffix::Paused, collections::Change::Delete)).push(
                (CollectionSuffix::Meta, collections::Change::Delete),
            );
        assert(changes[i].0 == other[i].0);
        assert(changes[9].1 is Delete);
    }
}

/// A queue without stored metadata processes nothing and is not paused; stored ones are
/// taken as they are.
pub proof fn law_absent_metadata_are_those_of_a_new_queue(meta: collections::Meta)
    ensures
        super::meta_or_fresh(Some(meta)) == meta,
        super::meta_or_fresh(None).processing == 0,
        !super::meta_or_fresh(None).paused,
{
}

/// A stored counter is eight bytes, the most significant one first: one byte more counts
/// the others 256 times. Read with a sign, its highest bit is the sign. Anything but
/// eight bytes, and nothing at all, counts as zero.
pub proof fn law_counters_are_read_from_bytes(bytes: Vec<u8>, more: u8, number: nat)
    ensures
        numbers::big_endian(bytes@.push(more)) == numbers::big_endian(bytes@) * 256 + more,
        numbers::big_endian(Seq::<u8>::empty()) == 0,
        bytes@.len() != 8 ==> numbers::stored_number(bytes@) == 0 && numbers::stored_count(bytes@)
            == 0,
        bytes@.len() == 8 ==> numbers::stored_number(bytes@) == numbers::with_sign(
            numbers::big_endian(bytes@),
        ),
        number < 0x8000_0000_0000_0000 ==> numbers::with_sign(number) == number,
        0x8000_0000_0000_0000 <= number < 0x1_0000_0000_0000_0000 ==> numbers::with_sign(number)
            == number - 0x1_0000_0000_0000_0000,
        numbers::count_in(None) == 0,
        numbers::count_in(Some(bytes)) == numbers::stored_count(bytes@),
{
    assert(bytes@.push(more).drop_last() =~= bytes@);
}

/// An ordinary job is gathered, unless its delay is too short: gathering it does not fail
/// for any other reason, and where it fails nothing is gathered.
pub proof fn law_ordinary_job_is_gathered<D, R, P>(
    before: BatchState,
    job: Job<D, R, P>,
    opts: JobOptions,
    ms: i64,
    pc: u64,
    id: u64,
    name: Seq<char>,
    is_paused: bool,
    dt: Dt,
    ts: Dt,
    result: KioResult<QueueStreamEvent<R, P>>,
    after: BatchState,
    job_after: Job<D, R, P>,
)
    requires
        insertion::gather_outcome(
            before,
            job,
            opts,
            pc,
            id,
            name,
            is_paused,
            dt,
            ts,
            result,
            after,
            job_after,
        ),
        opts.delay == JobDelay::TimeMilis(ms),
        ms >= 0,
        crate::time::in_calendar(ts@ + ms * 1_000_000),
        opts.priority < 0x1_0000_0000,
        pc < 0x1_0000_0000,
    ensures
        result is Ok <==> ms == 0 || ms >= crate::worker::MIN_DELAY_MS_LIMIT,
        result is Err ==> after == before,
        result is Err ==> job_after.id == job.id && job_after.state == job.state
            && job_after.opts == opts,
        result matches Ok(event) ==> event.job_id == id && job_after.id == Some(id),
{
}

/// A job that was added to a batch is the job that was asked for, under the next id or
/// the one that its options give, and the counters have counted it.
pub proof fn law_added_job_is_what_was_asked_for<D, R, P>(
    before: BatchState,
    counters: Counters,
    name: Seq<char>,
    data: D,
    opts: JobOptions,
    queue_name: Seq<char>,
    is_paused: bool,
    created: Dt,
    dt: Dt,
    ts: Dt,
    fresh: Job<D, R, P>,
    job: Job<D, R, P>,
    event: QueueStreamEvent<R, P>,
    after: BatchState,
    counters_after: Counters,
)
    requires
        insertion::one_gathered(
            before,
            counters,
            name,
            data,
            opts,
            queue_name,
            is_paused,
            created,
            dt,
            ts,
            fresh,
            Ok((job, event)),
            after,
            counters_after,
        ),
    ensures
        job.name@ == name && job.data == Some(data) && job.opts == opts && job.ts == created,
        job.attempts_made == 0,
        counters_after.id == counters.id + 1,
        opts.priority > 0 ==> counters_after.priority == counters.priority + 1,
        opts.priority == 0 ==> counters_after.priority == counters.priority,
        opts.id is None ==> job.id == Some((counters.id + 1) as u64),
        opts.id is Some ==> job.id == opts.id,
        Some(event.job_id) == job.id,
{
}

/// The processing count goes up by each job that is taken up and down by each that
/// ends, so that the two undo each other; it stays at zero when more end than were
/// taken up.
pub proof fn law_processing_goes_up_and_down(count: u64, delta: i64)
    requires
        0 <= delta,
    ensures
        count + delta <= u64::MAX ==> {
            &&& super::processing_after(count, delta) == Some((count + delta) as u64)
            &&& super::processing_after((count + delta) as u64, (-delta) as i64) == Some(count)
        },
        count + delta > u64::MAX ==> super::processing_after(count, delta) is None,
        delta >= count ==> super::processing_after(count, (-delta) as i64) == Some(0u64),
        super::processing_after(count, 0) == Some(count),
{
}

/// The jobs of a queue carry the name of the queue with its prefix: the prefix, a colon
/// and the name.
pub proof fn law_queue_is_named_with_its_prefix(store: RocksDbStore)
    ensures
        store.job_queue_name().len() == store@.prefix.len() + 1 + store@.name.len(),
        store.job_queue_name().take(store@.prefix.len() as int) == store@.prefix,
        store.job_queue_name()[store@.prefix.len() as int] == ':',
        store.job_queue_name().skip(store@.prefix.len() as int + 1) == store@.name,
{
    reveal_strlit(":");
    assert(store.job_queue_name().take(store@.prefix.len() as int) =~= store@.prefix);
    assert(store.job_queue_name().skip(store@.prefix.len() as int + 1) =~= store@.name);
}

/// A job that could not be gathered is not in the batch, and nothing else in the batch
/// has changed. Its id is used up all the same, where there was one.
pub proof fn law_refused_job_is_not_gathered<D, R, P>(
    before: (BatchState, Counters),
    item: (String, Option<JobOptions>, D),
    queue_opts: QueueOpts,
    queue_name: Seq<char>,
    is_paused: bool,
    error: KioError,
    after: (BatchState, Counters),
)
    requires
        insertion::item_handled(
            before,
            item,
            queue_opts,
            queue_name,
            is_paused,
            Err::<(Job<D, R, P>, QueueStreamEvent<R, P>), KioError>(error),
            after,
        ),
    ensures
        after.0 == before.0,
        after.1.id == before.1.id + 1 || after.1 == before.1,
        before.1.id < u64::MAX && before.1.priority < u64::MAX ==> after.1.id == before.1.id + 1,
{
}

/// A bulk ends at the first job that cannot be gathered: those before it were gathered
/// and none behind it was.
pub proof fn law_bulk_ends_at_the_first_refusal<D, R, P>(
    before: (BatchState, Counters),
    items: Seq<(String, Option<JobOptions>, D)>,
    queue_opts: QueueOpts,
    queue_name: Seq<char>,
    is_paused: bool,
    added: Seq<(Job<D, R, P>, QueueStreamEvent<R, P>)>,
    error: KioError,
    after: (BatchState, Counters),
)
    requires
        insertion::stopped_at(
            before,
            items,
            queue_opts,
            queue_name,
            is_paused,
            added,
            error,
            after,
        ),
    ensures
        added.len() < items.len(),
        before.1.id + added.len() <= after.1.id <= before.1.id + added.len() + 1,
        exists|mid: Counters| #[trigger]
            insertion::items_gathered(
                before,
                items,
                queue_opts,
                queue_name,
                is_paused,
                added,
                (after.0, mid),
            ) && mid.id == before.1.id + added.len(),
{
    let mid = choose|mid: (BatchState, Counters)|
        insertion::items_gathered(before, items, queue_opts, queue_name, is_paused, added, mid)
            && #[trigger] insertion::item_handled(
            mid,
            items[added.len() as int],
            queue_opts,
            queue_name,
            is_paused,
            Err::<(Job<D, R, P>, QueueStreamEvent<R, P>), KioError>(error),
            after,
        );
    law_gathered_ids_are_consecutive(
        before,
        items,
        queue_opts,
        queue_name,
        is_paused,
        added,
        mid,
    );
    law_refused_job_is_not_gathered::<D, R, P>(
        mid,
        items[added.len() as int],
        queue_opts,
        queue_name,
        is_paused,
        error,
        after,
    );
    assert(mid == (after.0, mid.1));
}

/// The counts of a queue are given exactly where every collection that is stored holds
/// what it should: one that does not is enough to refuse them, and a collection that is
/// not stored at all is no hindrance.
pub proof fn law_unreadable_collection_is_refused(
    stored: collections::StoredQueue,
    other: collections::StoredQueue,
    bytes: Vec<u8>,
)
    requires
        stored.readable(),
    ensures
        ({
            let odd = Some(bytes);
            &&& (collections::StoredQueue { stalled: odd, ..stored }).readable()
                <==> collections::is_set_stored(odd)
            &&& (collections::StoredQueue { active: odd, ..stored }).readable()
                <==> collections::is_list_stored(odd)
            &&& (collections::StoredQueue { waiting: odd, ..stored }).readable()
                <==> collections::is_list_stored(odd)
            &&& (collections::StoredQueue { paused: odd, ..stored }).readable()
                <==> collections::is_list_stored(odd)
            &&& (collections::StoredQueue { completed: odd, ..stored }).readable()
                <==> collections::is_scored_stored(odd)
            &&& (collections::StoredQueue { failed: odd, ..stored }).readable()
                <==> collections::is_scored_stored(odd)
            &&& (collections::StoredQueue { delayed: odd, ..stored }).readable()
                <==> collections::is_scored_stored(odd)
            &&& (collections::StoredQueue { prioritized: odd, ..stored }).readable()
                <==> collections::is_scored_stored(odd)
        }),
        (collections::StoredQueue {
            stalled: None,
            active: None,
            waiting: None,
            paused: None,
            completed: None,
            failed: None,
            delayed: None,
            prioritized: None,
            ..other
        }).readable(),
{
}

/// What a collection holds has one stored form: the same ids, or the same entries, are
/// stored as the same bytes. Of what was stored, as long as it is not too long to be
/// read, nothing else can be read.
pub proof fn law_stored_form_is_the_same(
    a: Seq<u8>,
    b: Seq<u8>,
    ids: Seq<u64>,
    other_ids: Seq<u64>,
    entries: Seq<(i128, u64)>,
    other_entries: Seq<(i128, u64)>,
)
    ensures
        collections::holds_list(a, ids) && collections::holds_list(b, ids) ==> a == b,
        collections::holds_set(a, ids) && collections::holds_set(b, ids) ==> a == b,
        collections::holds_entries(a, entries) && collections::holds_entries(b, entries) ==> a
            == b,
        collections::holds_list(a, ids) && collections::holds_list(a, other_ids) && a.len()
            <= json::LONGEST_INPUT ==> ids == other_ids,
        collections::holds_set(a, ids) && collections::holds_set(a, other_ids) && a.len()
            <= json::LONGEST_INPUT ==> ids == other_ids,
        collections::holds_entries(a, entries) && collections::holds_entries(a, other_entries)
            && a.len() <= json::LONGEST_INPUT ==> entries == other_entries,
{
}

} // verus!
