//! What holds of every job that is added, whatever the store holds.
use crate::error::{KioError, KioResult, QueueError};
use crate::events::QueueStreamEvent;
use crate::job::{Job, JobDelay, JobOptions, JobState};
use crate::queue::{CollectionSuffix, QueueOpts};
use crate::stores::inmemory_store::{insertion, records};
use crate::stores::state::{self, StoreState};
use crate::time::Dt;
use crate::utils::sequences;
use vstd::prelude::*;

verus! {

/// A job with a priority and without a delay is put among the prioritized ones, under
/// its priority above its counter, whether or not the queue is paused. No other list
/// or set changes.
pub proof fn law_prioritized_job_is_prioritized<D, R, P, M>(
    before: StoreState<D, R, P, M>,
    opts: JobOptions,
    pc: u64,
    id: u64,
    is_paused: bool,
    dt: int,
    ts: int,
)
    requires
        before.in_order(),
        insertion::delay_at(opts.delay, dt) == 0,
        0 < opts.priority < 0x1_0000_0000,
        pc < 0x1_0000_0000,
    ensures
        ({
            let after = insertion::placed(before, opts, pc, id, is_paused, dt, ts);
            &&& after.prioritized.contains(((opts.priority * 0x1_0000_0000 + pc) as i128, id))
            &&& after == (StoreState { prioritized: after.prioritized, ..before })
            &&& insertion::score_fits(opts, pc, dt)
        }),
{
    sequences::lemma_scored_entries(
        before.prioritized,
        crate::utils::scheduling::priority_score(opts.priority, pc) as i128,
        id,
    );
}

/// A job with neither delay nor priority is put at the front of the list of waiting
/// jobs, or of paused ones while the queue is paused, and nowhere else.
pub proof fn law_plain_job_goes_to_one_list<D, R, P, M>(
    before: StoreState<D, R, P, M>,
    opts: JobOptions,
    pc: u64,
    id: u64,
    dt: int,
    ts: int,
)
    requires
        insertion::delay_at(opts.delay, dt) == 0,
        opts.priority == 0,
    ensures
        ({
            let waits = insertion::placed(before, opts, pc, id, false, dt, ts);
            let held = insertion::placed(before, opts, pc, id, true, dt, ts);
            &&& waits.waiting.items == seq![id] + before.waiting.items
            &&& waits == (StoreState { waiting: waits.waiting, ..before })
            &&& held.paused.items == seq![id] + before.paused.items
            &&& held == (StoreState { paused: held.paused, ..before })
        }),
{
    let waits = insertion::placed(before, opts, pc, id, false, dt, ts);
    let held = insertion::placed(before, opts, pc, id, true, dt, ts);
    assert(waits.waiting.items =~= seq![id] + before.waiting.items);
    assert(held.paused.items =~= seq![id] + before.paused.items);
}

/// What is announced of a job that was added is where it is: the collection of the
/// announced state holds it, and so the state says whether it is delayed, prioritized,
/// held or waiting. Its record says so too, but for a job that is held: it waits.
pub proof fn law_announced_is_where_it_is<D, R, P, M>(
    before: StoreState<D, R, P, M>,
    opts: JobOptions,
    pc: u64,
    id: u64,
    is_paused: bool,
    dt: int,
    ts: int,
)
    requires
        before.in_order(),
        insertion::delay_at(opts.delay, dt) > 0 ==> opts.delay.next_millis(ts) is Some,
    ensures
        ({
            let told = insertion::announced(opts, is_paused, dt, ts);
            let delayed = insertion::delay_at(opts.delay, dt) > 0;
            &&& insertion::placed(before, opts, pc, id, is_paused, dt, ts).ids_of(
                CollectionSuffix::of_state(told),
            ).contains(id)
            &&& delayed ==> told == JobState::Delayed
            &&& !delayed && opts.priority > 0 ==> told == JobState::Prioritized
            &&& !delayed && opts.priority == 0 && is_paused ==> told == JobState::Paused
            &&& !delayed && opts.priority == 0 && !is_paused ==> told == JobState::Wait
            &&& insertion::placed_state(opts, dt, ts, JobState::Wait) == if told
                == JobState::Paused {
                JobState::Wait
            } else {
                told
            }
        }),
{
    let after = insertion::placed(before, opts, pc, id, is_paused, dt, ts);
    if let Some(at) = opts.delay.next_millis(ts) {
        sequences::lemma_scored_ids(before.delayed, (at as i64) as i128, id);
    }
    sequences::lemma_scored_ids(
        before.prioritized,
        crate::utils::scheduling::priority_score(opts.priority, pc) as i128,
        id,
    );
    if insertion::delay_at(opts.delay, dt) == 0 && opts.priority == 0 {
        if is_paused {
            assert(after.paused.items[0] == id);
        } else {
            assert(after.waiting.items[0] == id);
        }
    }
}

/// The event of a job that was added names the job and says what became of it: a
/// delayed job's event has its delay and no priority, that of a job with a priority
/// has its priority and no delay, and any other has neither.
pub proof fn law_event_of_an_added_job<R, P>(
    event: QueueStreamEvent<R, P>,
    opts: JobOptions,
    id: u64,
    name: Seq<char>,
    is_paused: bool,
    dt: int,
    ts: int,
)
    requires
        insertion::added_event(event, opts, id, name, is_paused, dt, ts),
    ensures
        event.job_id == id,
        event.event == insertion::announced(opts, is_paused, dt, ts),
        event.name matches Some(own) && own@ == name,
        ({
            let delay = insertion::delay_at(opts.delay, dt);
            &&& delay > 0 ==> event.delay == Some(delay) && event.priority is None
            &&& delay == 0 && opts.priority > 0 ==> event.delay is None && event.priority == Some(
                opts.priority,
            )
            &&& delay == 0 && opts.priority == 0 ==> event.delay is None && event.priority is None
        }),
        event.prev is None,
        event.returned_value is None && event.failed_reason is None && event.progress_data is None,
        event.worker_id is None && event.metrics is None,
{
}

/// A delay of some milliseconds that is shorter than the smallest accepted one is
/// refused, and the error says both; nothing is stored. Any other is accepted, no delay
/// at all among them.
pub proof fn law_short_delays_are_refused<D: Clone, R: Clone, P: Clone, M>(
    before: StoreState<D, R, P, M>,
    job: Job<D, R, P>,
    opts: JobOptions,
    ms: i64,
    pc: u64,
    id: u64,
    name: Seq<char>,
    is_paused: bool,
    dt: int,
    ts: int,
    result: KioResult<QueueStreamEvent<R, P>>,
    after: StoreState<D, R, P, M>,
    job_after: Job<D, R, P>,
)
    requires
        opts.delay == JobDelay::TimeMilis(ms),
        ms >= 0,
        insertion::inserted(
            before,
            job,
            opts,
            pc,
            id,
            name,
            is_paused,
            dt,
            ts,
            result,
            after,
            job_after,
        ),
    ensures
        1 <= ms < crate::worker::MIN_DELAY_MS_LIMIT ==> result == Err::<
            QueueStreamEvent<R, P>,
            KioError,
        >(
            KioError::QueueError(
                QueueError::DelayBelowAllowedLimit {
                    limit_ms: crate::worker::MIN_DELAY_MS_LIMIT,
                    current_ms: ms as u64,
                },
            ),
        ) && after == before,
        ms == 0 || ms >= crate::worker::MIN_DELAY_MS_LIMIT ==> result is Ok,
        crate::worker::MIN_DELAY_MS_LIMIT == 50,
{
}

/// A job that was inserted has its id, takes over its options, its priority and its
/// delay, and is otherwise what it was: its name, its data, when it was created and how
/// often it ran.
pub proof fn law_inserted_job_keeps_what_it_says<D: Clone, R: Clone, P: Clone, M>(
    before: StoreState<D, R, P, M>,
    job: Job<D, R, P>,
    opts: JobOptions,
    pc: u64,
    id: u64,
    name: Seq<char>,
    is_paused: bool,
    dt: int,
    ts: int,
    event: QueueStreamEvent<R, P>,
    after: StoreState<D, R, P, M>,
    job_after: Job<D, R, P>,
)
    requires
        insertion::inserted(
            before,
            job,
            opts,
            pc,
            id,
            name,
            is_paused,
            dt,
            ts,
            Ok(event),
            after,
            job_after,
        ),
    ensures
        job_after.id == Some(id),
        event.job_id == id,
        job_after.opts == opts,
        job_after.priority == opts.priority,
        job_after.delay == insertion::delay_at(opts.delay, job.ts@),
        job_after == (Job {
            id: job_after.id,
            opts: job_after.opts,
            priority: job_after.priority,
            delay: job_after.delay,
            state: job_after.state,
            ..job
        }),
        after.id_counter == before.id_counter,
        after.priority_counter == before.priority_counter,
        after.locks == before.locks,
        after.active == before.active,
        after.completed == before.completed && after.failed == before.failed,
        after.is_paused == before.is_paused,
{
}

/// Every job that is added is counted: the id counter goes up by one, and the priority
/// counter does for a job with a priority and for no other. A job gets the id that its
/// options give, and otherwise the number that the id counter went up to.
pub proof fn law_every_job_is_counted<D, R, P, M>(before: StoreState<D, R, P, M>, opts: JobOptions)
    ensures
        ({
            let after = insertion::counted_in(before, opts);
            &&& before.id_counter < u64::MAX ==> after.id_counter == before.id_counter + 1
            &&& opts.priority == 0 ==> after.priority_counter == before.priority_counter
                && insertion::next_priority_counter(before, opts) == 0
            &&& opts.priority > 0 && before.priority_counter < u64::MAX ==> {
                &&& after.priority_counter == before.priority_counter + 1
                &&& insertion::next_priority_counter(before, opts) == after.priority_counter
            }
            &&& after == (StoreState {
                id_counter: after.id_counter,
                priority_counter: after.priority_counter,
                ..before
            })
            &&& opts.id is None ==> insertion::given_id(opts, after.id_counter)
                == after.id_counter
            &&& opts.id matches Some(own) ==> insertion::given_id(opts, after.id_counter) == own
        }),
{
}

/// A job without options of its own has the queue's in everything but priority, delay
/// and id; one with options keeps those it gives.
pub proof fn law_jobs_have_the_queues_options(queue_opts: QueueOpts, own: JobOptions)
    ensures
        ({
            let bare = insertion::effective_opts(queue_opts, None);
            &&& bare.backoff == queue_opts.default_backoff
            &&& bare.repeat == queue_opts.repeat
            &&& bare.remove_on_complete == queue_opts.remove_on_complete
            &&& bare.remove_on_fail == queue_opts.remove_on_fail
            &&& bare.attempts == queue_opts.attempts
            &&& bare.priority == 0 && bare.id is None && bare.delay == JobDelay::TimeMilis(0)
        }),
        ({
            let given = insertion::effective_opts(queue_opts, Some(own));
            &&& given.backoff == if own.backoff is Some {
                own.backoff
            } else {
                queue_opts.default_backoff
            }
            &&& given.attempts == if own.attempts > 0 {
                own.attempts
            } else {
                queue_opts.attempts
            }
            &&& given.priority == own.priority && given.id == own.id && given.delay == own.delay
        }),
{
}

/// A job that was added is the job that was asked for: it has the name, the data and
/// the options that were given, no attempt was made yet, and its record and its event
/// carry its id.
pub proof fn law_added_job_is_what_was_asked_for<D: Clone, R: Clone, P: Clone, M>(
    before: StoreState<D, R, P, M>,
    name: Seq<char>,
    data: D,
    opts: JobOptions,
    is_paused: bool,
    created: Dt,
    dt: Dt,
    ts: Dt,
    fresh: Job<D, R, P>,
    job: Job<D, R, P>,
    event: QueueStreamEvent<R, P>,
    after: StoreState<D, R, P, M>,
)
    requires
        insertion::one_added(
            before,
            name,
            data,
            opts,
            is_paused,
            created,
            dt,
            ts,
            fresh,
            Ok((job, event)),
            after,
        ),
        before.id_counter < u64::MAX,
    ensures
        job.name@ == name,
        job.data == Some(data),
        job.opts == opts,
        job.ts == created,
        job.attempts_made == 0 && job.stalled_counter == 0,
        job.processed_on is None && job.finished_on is None && job.token is None,
        opts.id is None ==> job.id == Some((before.id_counter + 1) as u64),
        opts.id is Some ==> job.id == opts.id,
        Some(event.job_id) == job.id,
        event.name matches Some(own) && own@ == name,
        after.id_counter == before.id_counter + 1,
        after.jobs.entries.dom().contains(records::job_key(event.job_id)),
        after.jobs.entries[records::job_key(event.job_id)].value().copy_of(job),
{
}

/// Of two jobs that are added one after the other without an id of their own, the
/// second has the higher id.
pub proof fn law_later_jobs_have_higher_ids<D, R, P, M>(
    before: StoreState<D, R, P, M>,
    one: JobOptions,
    two: JobOptions,
)
    requires
        one.id is None,
        two.id is None,
        before.id_counter + 2 <= u64::MAX,
    ensures
        ({
            let mid = insertion::counted_in(before, one);
            let after = insertion::counted_in(mid, two);
            let first = insertion::given_id(one, state::bumped(before.id_counter, 1));
            let second = insertion::given_id(two, state::bumped(mid.id_counter, 1));
            &&& first < second
            &&& first == mid.id_counter && second == after.id_counter
        }),
{
}

/// An ordinary job can be inserted: one with no delay, or with one that the calendar
/// reaches, and with a priority that fits in 32 bits, as long as the lists have room.
pub proof fn law_ordinary_job_can_be_inserted<D, R, P, M>(
    state: StoreState<D, R, P, M>,
    job_ts: int,
    opts: JobOptions,
    ms: i64,
    pc: u64,
    is_paused: bool,
    dt: int,
    ts: int,
)
    requires
        opts.delay == JobDelay::TimeMilis(ms),
        ms <= 0 || crate::time::in_calendar(ts + ms * 1_000_000),
        opts.priority < 0x1_0000_0000,
        pc < 0x1_0000_0000,
        state.waiting.front_room > 0,
        state.paused.front_room > 0,
    ensures
        insertion::insertable(state, job_ts, opts, pc, is_paused, dt, ts),
        insertion::score_fits(opts, pc, dt),
{
}

/// An ordinary job is inserted, unless its delay is too short: adding it does not fail
/// for any other reason, and where it fails nothing changes.
pub proof fn law_ordinary_job_is_inserted<D: Clone, R: Clone, P: Clone, M>(
    before: StoreState<D, R, P, M>,
    job: Job<D, R, P>,
    opts: JobOptions,
    ms: i64,
    pc: u64,
    id: u64,
    name: Seq<char>,
    is_paused: bool,
    dt: Dt,
    ts: Dt,
    result: KioResult<QueueStreamEvent<R, P>>,
    after: StoreState<D, R, P, M>,
    job_after: Job<D, R, P>,
)
    requires
        insertion::insert_outcome(
            before,
            job,
            opts,
            pc,
            id,
            name,
            is_paused,
            dt,
            ts,
            result,
            after,
            job_after,
        ),
        opts.delay == JobDelay::TimeMilis(ms),
        ms >= 0,
        crate::time::in_calendar(ts@ + ms * 1_000_000),
        opts.priority < 0x1_0000_0000,
        pc < 0x1_0000_0000,
    ensures
        result is Ok <==> ms == 0 || ms >= crate::worker::MIN_DELAY_MS_LIMIT,
        result is Err ==> after == before,
        result is Err ==> job_after.id == job.id && job_after.state == job.state
            && job_after.opts == opts,
        result matches Ok(event) ==> event.job_id == id && job_after.id == Some(id),
{
}

/// A bulk ends at the first job that cannot be added: those before it were added and
/// none behind it was, and the job that was refused is counted like the others.
pub proof fn law_bulk_ends_at_the_first_refusal<D: Clone, R: Clone, P: Clone, M>(
    before: StoreState<D, R, P, M>,
    items: Seq<(String, Option<JobOptions>, D)>,
    queue_opts: QueueOpts,
    is_paused: bool,
    added: Seq<(Job<D, R, P>, QueueStreamEvent<R, P>)>,
    error: KioError,
    after: StoreState<D, R, P, M>,
)
    requires
        insertion::stopped_at(before, items, queue_opts, is_paused, added, error, after),
        before.id_counter + items.len() <= u64::MAX,
    ensures
        added.len() < items.len(),
        after.id_counter == before.id_counter + added.len() + 1,
        insertion::events_of(added).len() == added.len(),
        forall|i: int|
            0 <= i < added.len() ==> insertion::events_of(added)[i] == (#[trigger] added[i]).1,
{
    let mid = choose|mid: StoreState<D, R, P, M>|
        insertion::items_added(before, items, queue_opts, is_paused, added, mid)
            && #[trigger] insertion::item_handled(
            mid,
            items[added.len() as int],
            queue_opts,
            is_paused,
            Err::<(Job<D, R, P>, QueueStreamEvent<R, P>), KioError>(error),
            after,
        );
    crate::stores::laws::law_bulk_ids_are_consecutive(
        before,
        items,
        queue_opts,
        is_paused,
        added,
        mid,
    );
}

/// A job that could not be added is nowhere: no list and no set holds it, there is no
/// record of it, and no lock and no flag has changed. Its id is used up all the same.
pub proof fn law_refused_job_is_nowhere<D: Clone, R: Clone, P: Clone, M>(
    before: StoreState<D, R, P, M>,
    item: (String, Option<JobOptions>, D),
    queue_opts: QueueOpts,
    is_paused: bool,
    error: KioError,
    after: StoreState<D, R, P, M>,
    col: CollectionSuffix,
)
    requires
        insertion::item_handled(
            before,
            item,
            queue_opts,
            is_paused,
            Err::<(Job<D, R, P>, QueueStreamEvent<R, P>), KioError>(error),
            after,
        ),
    ensures
        after.ids_of(col) == before.ids_of(col),
        after.jobs == before.jobs && after.locks == before.locks,
        after.worker_metrics == before.worker_metrics && after.process_metrics
            == before.process_metrics,
        after.is_paused == before.is_paused && after.processing == before.processing,
        before.id_counter < u64::MAX ==> after.id_counter == before.id_counter + 1,
{
}

} // verus!
