//! What holds of every command that is sent, and of what the replies mean.
use super::command;
use super::insertion as sent;
use super::metrics;
use super::operations;
use super::records::{self, JobHashField};
use super::version;
use super::writing;
use super::{RedisStore, RedisVersion};
use crate::error::{KioError, KioResult};
use crate::events::QueueStreamEvent;
use crate::job::{Job, JobDelay, JobOptions, JobState};
use crate::metrics::WorkerMetrics;
use crate::queue::{CollectionSuffix, QueueEventMode, QueueOpts};
use crate::stores::inmemory_store::insertion;
use crate::stores::laws;
use crate::time::Dt;
use crate::utils::parse;
use crate::utils::text;
use vstd::prelude::*;

verus! {

/// The collections of jobs are lists, sorted sets or the set of the stalled ones, and
/// each is of one kind only.
pub proof fn law_collections_have_one_kind(col: CollectionSuffix)
    ensures
        operations::is_scored(col) <==> col is Completed || col is Delayed || col is Failed
            || col is Prioritized,
        operations::is_list(col) <==> col is Active || col is Wait || col is Paused,
        laws::holds_jobs(col) <==> operations::is_scored(col) || operations::is_list(col)
            || col is Stalled,
        !(operations::is_scored(col) && operations::is_list(col)),
{
}

/// Clearing the queue drops every collection of jobs, the counters, the metadata and the
/// events, and neither the jobs themselves nor their locks.
pub proof fn law_clearing_drops_every_collection(col: CollectionSuffix)
    ensures
        operations::auxiliary().contains(col) <==> laws::holds_jobs(col) || col is Id
            || col is PriorityCounter || col is Meta || col is Events || col is Marker,
{
    let all = operations::auxiliary();
    assert(all[0] is Delayed && all[1] is Wait && all[2] is Active && all[3] is Completed);
    assert(all[4] is Failed && all[5] is Events && all[6] is Id && all[8] is Stalled);
    assert(all[9] is Marker && all[10] is Prioritized && all[11] is PriorityCounter);
    assert(all[12] is Meta && all[13] is Paused);
    match col {
        CollectionSuffix::Delayed => assert(all[0] == col),
        CollectionSuffix::Wait => assert(all[1] == col),
        CollectionSuffix::Active => assert(all[2] == col),
        CollectionSuffix::Completed => assert(all[3] == col),
        CollectionSuffix::Failed => assert(all[4] == col),
        CollectionSuffix::Events => assert(all[5] == col),
        CollectionSuffix::Id => assert(all[6] == col),
        CollectionSuffix::Stalled => assert(all[8] == col),
        CollectionSuffix::Marker => assert(all[9] == col),
        CollectionSuffix::Prioritized => assert(all[10] == col),
        CollectionSuffix::PriorityCounter => assert(all[11] == col),
        CollectionSuffix::Meta => assert(all[12] == col),
        CollectionSuffix::Paused => assert(all[13] == col),
        _ => {},
    }
}

/// The jobs in a state are listed from the collection that the state is named after.
pub proof fn law_states_are_listed_from_their_collections()
    ensures
        operations::collection_of(JobState::Prioritized) is Prioritized,
        operations::collection_of(JobState::Completed) is Completed,
        operations::collection_of(JobState::Failed) is Failed,
        operations::collection_of(JobState::Delayed) is Delayed,
        operations::collection_of(JobState::Stalled) is Stalled,
        operations::collection_of(JobState::Active) is Active,
        operations::collection_of(JobState::Paused) is Paused,
        operations::collection_of(JobState::Wait) is Wait,
{
}

/// An index that a signed number holds is written as itself.
pub proof fn law_index_is_written_as_itself(index: usize)
    requires
        index <= isize::MAX,
    ensures
        operations::index_words(index) == text::decimal_digits(index as nat),
{
}

/// A pair goes to the event stream unless it is the id or `null` stands in its value.
pub proof fn law_pairs_without_null_are_streamed(pair: (String, String))
    ensures
        operations::is_streamed()(pair) <==> pair.0@ != "id"@ && !parse::contains_word(
            pair.1@,
            "null"@,
        ),
{
}

/// Whether a job is in a collection is asked with its id under the collection's key, by
/// the command that its kind takes; of anything else it is asked whether it is there.
pub proof fn law_presence_is_asked_under_the_key(
    store: RedisStore,
    col: CollectionSuffix,
    item: u64,
)
    ensures
        ({
            let words = store.exists_words(col, item);
            &&& words[1] == store.key_words(col)
            &&& laws::holds_jobs(col) ==> words.len() == 3 && words[2] == text::decimal_digits(
                item as nat,
            )
            &&& !laws::holds_jobs(col) ==> words.len() == 2 && words[0] == "EXISTS"@
            &&& col is Completed || col is Delayed || col is Failed || col is Prioritized
                ==> words[0] == "ZSCORE"@
            &&& col is Active || col is Wait || col is Paused ==> words[0] == "LPOS"@
            &&& col is Stalled ==> words[0] == "SISMEMBER"@
        }),
{
}

/// The name of the queue with its prefix is the prefix, a colon and the name.
pub proof fn law_queue_is_named_with_its_prefix(store: RedisStore)
    ensures
        store.queue_words().take(store.prefix@.len() as int) == store.prefix@,
        store.queue_words()[store.prefix@.len() as int] == ':',
        store.queue_words().skip(store.prefix@.len() as int + 1) == store.name@,
{
    reveal_strlit(":");
    assert(store.queue_words().take(store.prefix@.len() as int) =~= store.prefix@);
    assert(store.queue_words().skip(store.prefix@.len() as int + 1) =~= store.name@);
}

/// Pairs in words stand one after the other, each key before its value.
pub proof fn law_pairs_stand_one_after_the_other(pairs: Seq<(String, String)>, i: int)
    requires
        0 <= i < pairs.len(),
    ensures
        command::pair_words(pairs).len() == 2 * pairs.len(),
        command::pair_words(pairs)[2 * i] == pairs[i].0@,
        command::pair_words(pairs)[2 * i + 1] == pairs[i].1@,
{
    assert((2 * i) / 2 == i && (2 * i) % 2 == 0);
    assert((2 * i + 1) / 2 == i && (2 * i + 1) % 2 == 1);
}

/// There are as many batches as it takes: all full but the last, and none empty.
pub proof fn law_batches_are_full(len: int, size: int)
    requires
        size > 0,
        len >= 0,
    ensures
        len == 0 ==> command::batch_count(len, size) == 0,
        len > 0 ==> (command::batch_count(len, size) - 1) * size < len
            <= command::batch_count(len, size) * size,
{
    let n = command::batch_count(len, size);
    vstd::arithmetic::div_mod::lemma_fundamental_div_mod(len + size - 1, size);
    vstd::arithmetic::div_mod::lemma_mod_bound(len + size - 1, size);
    if len == 0 {
        vstd::arithmetic::div_mod::lemma_basic_div(size - 1, size);
    } else {
        let r = (len + size - 1) % size;
        assert((n - 1) * size < len && len <= n * size) by (nonlinear_arith)
            requires
                len + size - 1 == size * n + r,
                0 <= r < size,
        ;
    }
}

/// A job is put in one place by one command, with its id: one that is delayed by some
/// milliseconds among the delayed ones, under the time that lies so much ahead; one
/// with a priority among the prioritized ones, under its priority above its counter;
/// any other at the front of the waiting list, or of the paused one while the queue is
/// paused.
pub proof fn law_job_is_put_in_one_place(
    queue: Seq<char>,
    is_paused: bool,
    id: u64,
    pc: u64,
    opts: JobOptions,
    ms: i64,
    dt: int,
    ts: int,
)
    requires
        opts.delay == JobDelay::TimeMilis(ms),
        ms >= 0,
    ensures
        ({
            let words = sent::placing(queue, is_paused, id, pc, opts, dt, ts);
            let member = text::decimal_digits(id as nat);
            &&& words.len() == 1
            &&& words[0].last() == member
            &&& ms > 0 ==> words[0] == seq![
                "ZADD"@,
                queue + ":delayed"@,
                text::signed_digits(ts / 1_000_000 + ms),
                member,
            ]
            &&& ms == 0 && 0 < opts.priority < 0x1_0000_0000 && pc < 0x1_0000_0000 ==> words[0]
                == seq![
                "ZADD"@,
                sent::lower_key(queue, CollectionSuffix::Prioritized),
                text::decimal_digits((opts.priority * 0x1_0000_0000 + pc) as nat),
                member,
            ]
            &&& ms == 0 && opts.priority == 0 && !is_paused ==> words[0] == seq![
                "LPUSH"@,
                sent::lower_key(queue, CollectionSuffix::Wait),
                member,
            ]
            &&& ms == 0 && opts.priority == 0 && is_paused ==> words[0] == seq![
                "LPUSH"@,
                sent::lower_key(queue, CollectionSuffix::Paused),
                member,
            ]
        }),
{
    assert((ts + ms * 1_000_000) / 1_000_000 == ts / 1_000_000 + ms) by (nonlinear_arith);
}

/// What is told of a job says where it was put: a delayed one is told as delayed, with
/// its delay; one with a priority as prioritized, with its priority; any other as
/// waiting, with neither. The job's id and name are told of each.
pub proof fn law_told_is_where_it_was_put<R, P>(
    queue: Seq<char>,
    id: u64,
    opts: JobOptions,
    name: Seq<char>,
    dt: int,
    event: QueueStreamEvent<R, P>,
)
    requires
        sent::is_told(event, id, opts, name, dt),
    ensures
        ({
            let delay = insertion::delay_at(opts.delay, dt);
            let words = sent::appending(queue, id, opts, name, dt);
            &&& event.job_id == id
            &&& event.name matches Some(own) && own@ == name
            &&& delay > 0 ==> {
                &&& event.event == JobState::Delayed && event.delay == Some(delay)
                &&& event.priority is None
                &&& words.len() == 11 && words[9] == "delay"@ && words[10]
                    == text::decimal_digits(delay as nat)
            }
            &&& delay == 0 && opts.priority > 0 ==> {
                &&& event.event == JobState::Prioritized && event.priority == Some(opts.priority)
                &&& event.delay is None
                &&& words.len() == 11 && words[9] == "priority"@ && words[10]
                    == text::decimal_digits(opts.priority as nat)
            }
            &&& delay == 0 && opts.priority == 0 ==> {
                &&& event.event == JobState::Wait && event.delay is None
                &&& event.priority is None
                &&& words.len() == 9
            }
            &&& words[0] == "XADD"@ && words[1] == queue + ":events"@ && words[2] == "*"@
            &&& words[3] == "event"@ && words[4] == event.event.lower_words()
            &&& words[5] == "job_id"@ && words[6] == text::decimal_digits(id as nat)
            &&& words[7] == "name"@ && words[8] == name
            &&& event.prev is None && event.returned_value is None
        }),
{
}

/// Preparing a job adds its commands behind those there were: the one that puts it in
/// its place, the one that stores its fields under its key, and the one that tells of
/// it. One whose delay is too short adds none and is refused.
pub proof fn law_prepared_job_is_placed_stored_and_told<
    D,
    R,
    P,
    F: Fn(JobHashField, &Job<D, R, P>) -> String,
    G: Fn(&QueueStreamEvent<R, P>) -> String,
>(
    before: Seq<Seq<Seq<char>>>,
    queue: Seq<char>,
    mode: QueueEventMode,
    is_paused: bool,
    id: u64,
    pc: u64,
    opts: JobOptions,
    ms: i64,
    job: Job<D, R, P>,
    name: Seq<char>,
    write_other: F,
    to_message: G,
    dt: int,
    ts: int,
    result: KioResult<()>,
    after: Seq<Seq<Seq<char>>>,
    job_after: Job<D, R, P>,
)
    requires
        sent::prepared(
            before,
            queue,
            mode,
            is_paused,
            id,
            pc,
            opts,
            job,
            name,
            write_other,
            to_message,
            dt,
            ts,
            result,
            after,
            job_after,
        ),
        opts.delay == JobDelay::TimeMilis(ms),
        ms >= 0,
    ensures
        1 <= ms < crate::worker::MIN_DELAY_MS_LIMIT ==> result is Err && after == before,
        ms == 0 || ms >= crate::worker::MIN_DELAY_MS_LIMIT ==> {
            &&& result is Ok
            &&& after.len() == before.len() + 3
            &&& after.take(before.len() as int) == before
            &&& after[before.len() as int] == sent::placing(
                queue,
                is_paused,
                id,
                pc,
                opts,
                dt,
                ts,
            )[0]
            &&& after[before.len() as int + 1][0] == "HMSET"@
            &&& after[before.len() as int + 1][1] == queue + ":"@ + text::decimal_digits(
                id as nat,
            )
            &&& job_after.id == Some(id) && job_after.opts == opts
            &&& job_after.priority == opts.priority && job_after.data == job.data
            &&& job_after.name == job.name && job_after.attempts_made == job.attempts_made
            &&& mode == QueueEventMode::Stream ==> after.last() == sent::appending(
                queue,
                id,
                opts,
                name,
                dt,
            )
            &&& mode == QueueEventMode::PubSub ==> after.last()[0] == "PUBLISH"@
                && after.last()[1] == queue + ":events"@
        },
{
    assert(after.len() >= before.len() ==> after.take(before.len() as int).len()
        == before.len());
    if ms == 0 || ms >= crate::worker::MIN_DELAY_MS_LIMIT {
        assert(after.take(before.len() as int) =~= before);
    }
}

/// The jobs of a bulk that have a priority are counted one by one.
pub proof fn law_jobs_with_priority_are_counted<D>(
    items: Seq<(String, Option<JobOptions>, D)>,
    queue_opts: QueueOpts,
    n: int,
)
    requires
        0 <= n < items.len(),
    ensures
        sent::with_priority(items, queue_opts, 0) == 0,
        items[n].1 matches Some(opts) ==> opts.priority > 0 ==> sent::with_priority(
            items,
            queue_opts,
            n + 1,
        ) == sent::with_priority(items, queue_opts, n) + 1,
        items[n].1 is None || (items[n].1->0).priority == 0 ==> sent::with_priority(
            items,
            queue_opts,
            n + 1,
        ) == sent::with_priority(items, queue_opts, n),
{
}

/// A bulk is counted by its length, and its jobs with a priority by theirs, where there
/// are any.
pub proof fn law_bulk_is_counted(
    id_key: Seq<char>,
    pc_key: Seq<char>,
    added: int,
    prioritized: int,
)
    requires
        added >= 0,
    ensures
        ({
            let words = sent::counting(id_key, pc_key, added, prioritized);
            &&& words[0] == seq!["INCRBY"@, id_key, text::decimal_digits(added as nat)]
            &&& prioritized > 0 ==> words.len() == 2 && words[1] == seq![
                "INCRBY"@,
                pc_key,
                text::decimal_digits(prioritized as nat),
            ]
            &&& prioritized <= 0 ==> words.len() == 1
        }),
{
}

/// The counts of a queue are asked for in the order in which the reply is read, each
/// under the key of its own collection.
pub proof fn law_counts_are_asked_in_order(store: RedisStore)
    ensures
        ({
            let words = metrics::metrics_words(store.prefix@, store.name@);
            &&& words.len() == 12
            &&& words[0] == seq!["ZCARD"@, store.key_words(CollectionSuffix::Completed)]
            &&& words[1] == seq!["ZCARD"@, store.key_words(CollectionSuffix::Failed)]
            &&& words[2] == seq!["ZCARD"@, store.key_words(CollectionSuffix::Prioritized)]
            &&& words[3] == seq!["LLEN"@, store.key_words(CollectionSuffix::Active)]
            &&& words[4] == seq!["SCARD"@, store.key_words(CollectionSuffix::Stalled)]
            &&& words[5] == seq!["ZCARD"@, store.key_words(CollectionSuffix::Delayed)]
            &&& words[6] == seq!["LLEN"@, store.key_words(CollectionSuffix::Wait)]
            &&& words[7] == seq!["LLEN"@, store.key_words(CollectionSuffix::Paused)]
            &&& words[8] == seq!["GET"@, store.key_words(CollectionSuffix::Id)]
            &&& words[9] == seq![
                "HGET"@,
                store.key_words(CollectionSuffix::Meta),
                "processing"@,
            ]
            &&& words[10] == seq![
                "HGET"@,
                store.key_words(CollectionSuffix::Meta),
                "event_mode"@,
            ]
            &&& words[11] == seq![
                "HEXISTS"@,
                store.key_words(CollectionSuffix::Meta),
                JobState::Paused.lower_words(),
            ]
        }),
{
}

/// A count that the server does not give is zero.
pub proof fn law_absent_counts_are_zero(number: u64)
    ensures
        super::number_or_zero(Some(number)) == number,
        super::number_or_zero(None) == 0,
{
}

/// Metrics count as current for as long as they are to be kept and twenty milliseconds
/// more, counted in whole milliseconds, and no longer; metrics from the future count
/// as current.
pub proof fn law_metrics_are_current_while_kept(now: Dt, worker: WorkerMetrics)
    requires
        worker.ttl_ms <= i64::MAX,
    ensures
        now@ < worker.last_updated@ + (worker.ttl_ms + 21) * 1_000_000 ==> metrics::is_current(
            now,
        )(worker),
        now@ >= worker.last_updated@ + (worker.ttl_ms + 21) * 1_000_000 ==> !metrics::is_current(
            now,
        )(worker),
{
    crate::time::law_whole_millis_leave_less_than_one(now@ - worker.last_updated@);
}

/// A whole collection of metrics is kept a hundred times as long as one of them, or as
/// long as can be said.
pub proof fn law_collection_is_kept_a_hundredfold(ttl_ms: u64)
    ensures
        ttl_ms <= u64::MAX / 100 ==> metrics::hundredfold(ttl_ms) == 100 * ttl_ms,
        ttl_ms > u64::MAX / 100 ==> metrics::hundredfold(ttl_ms) == u64::MAX,
        metrics::hundredfold(ttl_ms) >= ttl_ms,
{
}

/// A version reaches another exactly when it is the same or a higher one: the major
/// number decides, then the minor one, then the patch.
pub proof fn law_higher_versions_reach_lower_ones(a: RedisVersion, b: RedisVersion)
    ensures
        a.major > b.major ==> a.reaches(b) && !b.reaches(a),
        a.major == b.major && a.minor > b.minor ==> a.reaches(b) && !b.reaches(a),
        a.major == b.major && a.minor == b.minor && a.patch > b.patch ==> a.reaches(b)
            && !b.reaches(a),
        a.reaches(a),
{
}

/// The position of a mark behind a text in which it does not stand.
proof fn lemma_mark_behind(head: Seq<char>, mark: char, tail: Seq<char>, from: int)
    requires
        0 <= from <= head.len(),
        forall|i: int| from <= i < head.len() ==> #[trigger] head[i] != mark,
    ensures
        parse::position(head + seq![mark] + tail, mark, from) == head.len(),
{
    let whole = head + seq![mark] + tail;
    assert(whole[head.len() as int] == mark);
    assert forall|i: int| from <= i < head.len() implies #[trigger] whole[i] != mark by {
        assert(whole[i] == head[i]);
    }
    parse::lemma_position(whole, mark, from, head.len() as int);
}

/// A version that was written as its numbers with points between them is read back, and
/// one without a patch has the patch zero.
pub proof fn law_version_is_read_back(version: RedisVersion)
    ensures
        version::version_of(
            text::decimal_digits(version.major as nat) + seq!['.'] + text::decimal_digits(
                version.minor as nat,
            ) + seq!['.'] + text::decimal_digits(version.patch as nat),
        ) == Some(version),
        version::version_of(
            text::decimal_digits(version.major as nat) + seq!['.'] + text::decimal_digits(
                version.minor as nat,
            ),
        ) == Some(RedisVersion { patch: 0, ..version }),
{
    let a = text::decimal_digits(version.major as nat);
    let b = text::decimal_digits(version.minor as nat);
    let c = text::decimal_digits(version.patch as nat);
    parse::law_decimal_is_digits(version.major as u64);
    parse::law_decimal_is_digits(version.minor as u64);
    parse::law_decimal_is_digits(version.patch as u64);
    lemma_limit(version.major);
    lemma_limit(version.minor);
    lemma_limit(version.patch);
    assert forall|i: int| 0 <= i < a.len() implies #[trigger] a[i] != '.' by {
        assert(parse::is_digit(a[i]));
    }
    let head = a + seq!['.'] + b;
    assert forall|i: int| a.len() + 1 <= i < head.len() implies #[trigger] head[i] != '.' by {
        assert(parse::is_digit(b[i - a.len() - 1]));
        assert(head[i] == b[i - a.len() - 1]);
    }
    let long = head + seq!['.'] + c;
    assert(long =~= a + seq!['.'] + (b + seq!['.'] + c));
    lemma_mark_behind(a, '.', b + seq!['.'] + c, 0);
    lemma_mark_behind(head, '.', c, a.len() as int + 1);
    assert(long.subrange(0, a.len() as int) =~= a);
    assert(long.subrange(a.len() as int + 1, head.len() as int) =~= b);
    assert(long.subrange(head.len() as int + 1, long.len() as int) =~= c);
    lemma_mark_behind(a, '.', b, 0);
    parse::lemma_position(head, '.', a.len() as int + 1, head.len() as int);
    assert(head.subrange(0, a.len() as int) =~= a);
    assert(head.subrange(a.len() as int + 1, head.len() as int) =~= b);
}

/// A number of 32 bits in decimal is read with the limit of 32 bits.
proof fn lemma_limit(number: u32)
    ensures
        parse::number_of(text::decimal_digits(number as nat), u32::MAX as u64) == Some(
            number as u64,
        ),
{
    parse::law_decimal_is_digits(number as u64);
    parse::law_decimal_is_read_back(number as u64);
}

/// The version that a server reports stands behind `redis_version:`, up to the end of
/// the line, without the white space around it.
pub proof fn law_reported_version_is_found(words: Seq<char>, rest: Seq<char>)
    requires
        forall|i: int| 0 <= i < words.len() ==> #[trigger] words[i] != '\n',
    ensures
        version::reported_version("redis_version:"@ + words + seq!['\n'] + rest)
            == version::version_of(parse::trim_end(parse::trim_start(words))),
{
    reveal_strlit("redis_version:");
    let word = "redis_version:"@;
    let head = word + words;
    let raw = head + seq!['\n'] + rest;
    assert(raw =~= word + words + seq!['\n'] + rest);
    assert(raw.subrange(0, word.len() as int) =~= word);
    assert(parse::word_at(raw, word, 0));
    assert forall|i: int| 0 <= i < head.len() implies #[trigger] head[i] != '\n' by {
        if i < word.len() {
            assert(head[i] == word[i]);
        } else {
            assert(head[i] == words[i - word.len()]);
        }
    }
    lemma_mark_behind(head, '\n', rest, 0);
    assert(raw.subrange(14, head.len() as int) =~= words);
}

/// Each field of a job's hash is written under its own key.
pub proof fn law_hash_fields_have_their_keys()
    ensures
        JobHashField::Id.key_words() == "id"@,
        JobHashField::Timestamp.key_words() == "timestamp"@,
        JobHashField::Opts.key_words() == "opts"@,
        JobHashField::Name.key_words() == "name"@,
        JobHashField::QueueName.key_words() == "queueName"@,
        JobHashField::State.key_words() == "state"@,
        JobHashField::Token.key_words() == "token"@,
        JobHashField::Progress.key_words() == "progress"@,
        JobHashField::AttemptsMade.key_words() == "attemptsMade"@,
        JobHashField::Delay.key_words() == "delay"@,
        JobHashField::Priority.key_words() == "priority"@,
        JobHashField::Data.key_words() == "data"@,
        JobHashField::ReturnedValue.key_words() == "returnedValue"@,
        JobHashField::StackTrace.key_words() == "stackTrace"@,
        JobHashField::Logs.key_words() == "logs"@,
        JobHashField::FailedReason.key_words() == "failedReason"@,
        JobHashField::ProcessedOn.key_words() == "processedOn"@,
        JobHashField::FinishedOn.key_words() == "finishedOn"@,
        JobHashField::StalledCounter.key_words() == "stalledCounter"@,
{
}

/// The numbers of a job are written in decimal, and its points in time in whole
/// microseconds.
pub proof fn law_numbers_are_written_in_decimal<D, R, P>(job: Job<D, R, P>)
    ensures
        writing::plain_text(JobHashField::AttemptsMade, job) == text::decimal_digits(
            job.attempts_made as nat,
        ),
        writing::plain_text(JobHashField::Delay, job) == text::decimal_digits(job.delay as nat),
        writing::plain_text(JobHashField::Priority, job) == text::decimal_digits(
            job.priority as nat,
        ),
        writing::plain_text(JobHashField::StalledCounter, job) == text::decimal_digits(
            job.stalled_counter as nat,
        ),
        writing::plain_text(JobHashField::Timestamp, job) == text::signed_digits(
            job.ts@ / 1_000,
        ),
        job.processed_on matches Some(at) ==> writing::plain_text(JobHashField::ProcessedOn, job)
            == text::signed_digits(at@ / 1_000),
        job.finished_on matches Some(at) ==> writing::plain_text(JobHashField::FinishedOn, job)
            == text::signed_digits(at@ / 1_000),
        job.processed_on is None ==> writing::plain_text(JobHashField::ProcessedOn, job)
            == "null"@,
{
}

/// A point in time is read from its microseconds, as long as the calendar reaches it; a
/// job without a time of creation, or with one that is out of reach, counts from the
/// epoch.
pub proof fn law_times_are_read_from_microseconds(micros: u64)
    requires
        micros <= i64::MAX,
    ensures
        crate::time::in_calendar(micros * 1_000) ==> records::reached_at(Some(micros)) == Some(
            micros * 1_000,
        ) && records::created_at(Some(micros)) == micros * 1_000,
        !crate::time::in_calendar(micros * 1_000) ==> records::reached_at(Some(micros)) is None
            && records::created_at(Some(micros)) == 0,
        records::reached_at(None) is None,
        records::created_at(None) == 0,
{
}

/// A field of a job takes over its value, and no other field changes.
pub proof fn law_read_value_goes_to_its_field<D, R, P>(
    old: Job<D, R, P>,
    value: records::JobValue<D, R, P>,
    new: Job<D, R, P>,
    field: JobHashField,
)
    requires
        records::value_set(old, value, new),
    ensures
        records::is_held(value, new) || value is Timestamp || value is ProcessedOn
            || value is FinishedOn,
        value matches records::JobValue::Id(id) ==> new.id == id,
        value matches records::JobValue::State(state) ==> new.state == state,
        value matches records::JobValue::AttemptsMade(attempts) ==> new.attempts_made == attempts,
        value matches records::JobValue::Priority(priority) ==> new.priority == priority,
        value matches records::JobValue::Delay(delay) ==> new.delay == delay,
        value matches records::JobValue::StalledCounter(count) ==> new.stalled_counter == count,
        value matches records::JobValue::Token(token) ==> new.token == token,
        value matches records::JobValue::Opts(opts) ==> new.opts == opts,
        value matches records::JobValue::Data(data) ==> new.data == data,
        field != records::field_of(value) && field is Id ==> new.id == old.id,
        field != records::field_of(value) && field is State ==> new.state == old.state,
        field != records::field_of(value) && field is AttemptsMade ==> new.attempts_made
            == old.attempts_made,
        field != records::field_of(value) && field is Priority ==> new.priority == old.priority,
        field != records::field_of(value) && field is Data ==> new.data == old.data,
        field != records::field_of(value) && field is Opts ==> new.opts == old.opts,
        field != records::field_of(value) && field is Token ==> new.token == old.token,
        field != records::field_of(value) && field is Timestamp ==> new.ts == old.ts,
{
}

/// Publishing progress tells of the job, under its id and with the queue's name, that it
/// is a progress update, and what the progress is.
pub proof fn law_progress_is_told<R, P: Clone>(
    store: RedisStore,
    event: QueueStreamEvent<R, P>,
    id: u64,
    value: P,
)
    requires
        store.is_progress(event, id, value),
    ensures
        event.event == JobState::Progress && event.job_id == id,
        event.name matches Some(own) && own@ == store.name@,
        event.progress_data matches Some(data) && cloned(value, data),
        event.delay is None && event.priority is None && event.prev is None,
        event.returned_value is None && event.failed_reason is None && event.metrics is None,
{
}

/// An error of a job that cannot be inserted says why: its schedule has come to an end,
/// or its delay or its score is out of range; one that can be inserted has no such
/// error.
pub proof fn law_refusal_has_a_reason(
    job_ts: int,
    opts: JobOptions,
    pc: u64,
    dt: int,
    ts: int,
    error: KioError,
)
    requires
        insertion::not_insertable(job_ts, opts, pc, dt, ts, error),
    ensures
        !sent::preparable(job_ts, opts, pc, dt, ts),
        opts.delay is TimeMilis ==> error is GeneralError,
        error is CronerError ==> opts.delay is FromCron,
        opts.delay matches JobDelay::TimeMilis(ms) ==> ms > 0 || opts.priority > 0,
{
}

/// An ordinary job is prepared, unless its delay is too short: preparing it does not
/// fail for any other reason, and where it fails no command is added.
pub proof fn law_ordinary_job_is_prepared<
    D,
    R,
    P,
    F: Fn(JobHashField, &Job<D, R, P>) -> String,
    G: Fn(&QueueStreamEvent<R, P>) -> String,
>(
    before: Seq<Seq<Seq<char>>>,
    queue: Seq<char>,
    mode: QueueEventMode,
    is_paused: bool,
    id: u64,
    pc: u64,
    opts: JobOptions,
    ms: i64,
    job: Job<D, R, P>,
    name: Seq<char>,
    write_other: F,
    to_message: G,
    dt: Dt,
    ts: Dt,
    result: KioResult<()>,
    after: Seq<Seq<Seq<char>>>,
    job_after: Job<D, R, P>,
)
    requires
        sent::prepare_outcome(
            before,
            queue,
            mode,
            is_paused,
            id,
            pc,
            opts,
            job,
            name,
            write_other,
            to_message,
            dt,
            ts,
            result,
            after,
            job_after,
        ),
        opts.delay == JobDelay::TimeMilis(ms),
        ms >= 0,
        crate::time::in_calendar(ts@ + ms * 1_000_000),
        opts.priority < 0x1_0000_0000,
        pc < 0x1_0000_0000,
    ensures
        result is Ok <==> ms == 0 || ms >= crate::worker::MIN_DELAY_MS_LIMIT,
        result is Err ==> after == before,
        result is Err ==> job_after.id == job.id && job_after.state == job.state
            && job_after.opts == opts,
        result is Ok ==> after.len() == before.len() + 3 && job_after.id == Some(id),
{
}

/// The jobs of a bulk get the ids behind the last one, one after the other, but for those
/// whose options give them one.
pub proof fn law_prepared_ids_are_consecutive<
    D,
    R,
    P,
    F: Fn(JobHashField, &Job<D, R, P>) -> String,
    G: Fn(&QueueStreamEvent<R, P>) -> String,
>(
    before: Seq<Seq<Seq<char>>>,
    queue: Seq<char>,
    mode: QueueEventMode,
    is_paused: bool,
    last_id: u64,
    last_pc: u64,
    queue_opts: QueueOpts,
    items: Seq<(String, Option<JobOptions>, D)>,
    write_other: F,
    to_message: G,
    jobs: Seq<Job<D, R, P>>,
    after: Seq<Seq<Seq<char>>>,
)
    requires
        sent::items_prepared(
            before,
            queue,
            mode,
            is_paused,
            last_id,
            last_pc,
            queue_opts,
            items,
            write_other,
            to_message,
            jobs,
            after,
        ),
        jobs.len() <= items.len(),
        last_id + jobs.len() <= u64::MAX,
    ensures
        forall|i: int|
            0 <= i < jobs.len() ==> (#[trigger] jobs[i]).id == match items[i].1 {
                Some(opts) => if opts.id is Some {
                    opts.id
                } else {
                    Some((last_id + i + 1) as u64)
                },
                None => Some((last_id + i + 1) as u64),
            } && jobs[i].data == Some(items[i].2) && jobs[i].name@ == items[i].0@,
    decreases jobs.len(),
{
    if jobs.len() > 0 {
        let n = jobs.len() - 1;
        let opts = insertion::effective_opts(queue_opts, items[n].1);
        let mid = choose|mid: Seq<Seq<Seq<char>>>|
            sent::items_prepared(
                before,
                queue,
                mode,
                is_paused,
                last_id,
                last_pc,
                queue_opts,
                items,
                write_other,
                to_message,
                jobs.drop_last(),
                mid,
            ) && #[trigger] sent::item_prepared(
                mid,
                queue,
                mode,
                is_paused,
                insertion::given_id(opts, (last_id + jobs.len()) as u64),
                (last_pc + 1 + sent::with_priority(items, queue_opts, n)) as u64,
                opts,
                items[n].0@,
                items[n].2,
                write_other,
                to_message,
                after,
                jobs.last(),
            );
        law_prepared_ids_are_consecutive(
            before,
            queue,
            mode,
            is_paused,
            last_id,
            last_pc,
            queue_opts,
            items,
            write_other,
            to_message,
            jobs.drop_last(),
            mid,
        );
        assert forall|i: int| 0 <= i < jobs.len() implies (#[trigger] jobs[i]).id
            == match items[i].1 {
            Some(opts) => if opts.id is Some {
                opts.id
            } else {
                Some((last_id + i + 1) as u64)
            },
            None => Some((last_id + i + 1) as u64),
        } && jobs[i].data == Some(items[i].2) && jobs[i].name@ == items[i].0@ by {
            if i < n {
                assert(jobs.drop_last()[i] == jobs[i]);
            }
        }
    }
}

/// A page of a set is what lies between its two positions, and all of the set without
/// them: the member at a position is on the page where the position is neither before
/// the first nor behind the last, and stands there as far behind the page's first
/// member as its position is behind the first. A last position that does not exist
/// stands for the last member.
pub proof fn law_members_between_are_on_the_page(
    members: Seq<u64>,
    start: Option<usize>,
    end: Option<usize>,
    i: int,
)
    requires
        members.len() <= usize::MAX,
    ensures
        operations::members_between(members, None, None) == members,
        operations::members_between(members, start, end).len() <= members.len(),
        ({
            let first = match start {
                Some(start) => start as int,
                None => 0,
            };
            let page = operations::members_between(members, start, end);
            &&& first <= i < members.len() && (end matches Some(end) ==> i <= end) ==> i - first
                < page.len() && page[i - first] == members[i]
            &&& 0 <= i < page.len() ==> first + i < members.len() && page[i] == members[first + i]
                && (end matches Some(end) ==> first + i <= end)
        }),
{
    assert(operations::members_between(members, None, None) =~= members);
}

/// A text without a point is no version, and neither is one with nothing before or
/// behind its point.
pub proof fn law_version_needs_a_point(text: Seq<char>)
    requires
        forall|i: int| 0 <= i < text.len() ==> #[trigger] text[i] != '.',
    ensures
        version::version_of(text) is None,
        version::version_of(text + seq!['.']) is None,
        version::version_of(seq!['.'] + text) is None,
{
    parse::lemma_position(text, '.', 0, text.len() as int);
    lemma_mark_behind(text, '.', Seq::empty(), 0);
    let behind = text + seq!['.'];
    assert(behind + Seq::empty() =~= behind);
    let before = seq!['.'] + text;
    assert(before[0] == '.');
    parse::lemma_position(before, '.', 0, 0);
    parse::lemma_position(behind, '.', text.len() as int + 1, behind.len() as int);
    assert(before.subrange(0, 0) =~= Seq::<char>::empty());
    assert(behind.subrange(text.len() as int + 1, behind.len() as int) =~= Seq::<char>::empty());
}

/// Lines that begin otherwise make no difference to the version that is reported,
/// however many of them come first and whether or not they are empty; and a report
/// without a line that begins with `redis_version:` has none.
pub proof fn law_other_lines_are_passed_over(line: Seq<char>, rest: Seq<char>)
    requires
        forall|i: int| 0 <= i < line.len() ==> #[trigger] line[i] != '\n',
        !parse::word_at(line + seq!['\n'] + rest, "redis_version:"@, 0),
    ensures
        version::reported_version(line + seq!['\n'] + rest) == version::reported_version(rest),
        version::reported_version(line) is None,
{
    reveal_strlit("redis_version:");
    let word = "redis_version:"@;
    let head = line + seq!['\n'];
    let raw = head + rest;
    lemma_mark_behind(line, '\n', rest, 0);
    assert(raw =~= line + seq!['\n'] + rest);
    lemma_lines_move_along(head, rest, word, 0);
    match version::line_with(rest, word, 0) {
        Some(start) => {
            lemma_line_starts_inside(rest, word, 0);
            lemma_break_moves_along(head, rest, start);
            let end = version::first_break(rest, start);
            lemma_break_inside(rest, start);
            assert forall|i: int| start <= i < start + 14 implies #[trigger] rest[i] != '\n' by {
                assert(rest[i] == rest.subrange(start, start + word.len())[i - start]);
                assert(rest[i] == word[i - start]);
            }
            lemma_break_behind(rest, start, start + 14);
            assert(raw.subrange(head.len() + start + 14, head.len() + end) =~= rest.subrange(
                start + 14,
                end,
            ));
        },
        None => {},
    }
    parse::lemma_position(line, '\n', 0, line.len() as int);
    if parse::word_at(line, word, 0) {
        assert(raw.subrange(0, word.len() as int) =~= line.subrange(0, word.len() as int));
    }
}

/// What is found behind a text is found as far behind its start.
proof fn lemma_break_moves_along(head: Seq<char>, rest: Seq<char>, from: int)
    requires
        0 <= from <= rest.len(),
    ensures
        version::first_break(head + rest, head.len() + from) == head.len()
            + version::first_break(rest, from),
    decreases rest.len() - from,
{
    if from < rest.len() {
        assert((head + rest)[head.len() + from] == rest[from]);
        if rest[from] != '\n' {
            lemma_break_moves_along(head, rest, from + 1);
        }
    }
}

/// A line ends inside of its text, or with it.
proof fn lemma_break_inside(text: Seq<char>, from: int)
    requires
        0 <= from <= text.len(),
    ensures
        from <= version::first_break(text, from) <= text.len(),
    decreases text.len() - from,
{
    if from < text.len() && text[from] != '\n' {
        lemma_break_inside(text, from + 1);
    }
}

/// A line does not end before a stretch of it that holds no line break.
proof fn lemma_break_behind(text: Seq<char>, from: int, to: int)
    requires
        0 <= from <= to <= text.len(),
        forall|i: int| from <= i < to ==> #[trigger] text[i] != '\n',
    ensures
        to <= version::first_break(text, from),
    decreases to - from,
{
    if from < to {
        lemma_break_behind(text, from + 1, to);
    } else {
        lemma_break_inside(text, from);
    }
}

/// A line that was found starts inside of its text, and its word ends there.
proof fn lemma_line_starts_inside(text: Seq<char>, word: Seq<char>, from: int)
    requires
        0 <= from <= text.len(),
    ensures
        version::line_with(text, word, from) matches Some(start) ==> from <= start
            && parse::word_at(text, word, start),
    decreases text.len() - from,
{
    lemma_break_inside(text, from);
    let end = version::first_break(text, from);
    if !parse::word_at(text, word, from) && end < text.len() {
        lemma_line_starts_inside(text, word, end + 1);
    }
}

/// A line that is found behind a text is found as far behind its start.
proof fn lemma_lines_move_along(head: Seq<char>, rest: Seq<char>, word: Seq<char>, from: int)
    requires
        0 <= from <= rest.len(),
    ensures
        version::line_with(head + rest, word, head.len() + from) == match version::line_with(
            rest,
            word,
            from,
        ) {
            Some(start) => Some(head.len() + start),
            None => None,
        },
    decreases rest.len() - from,
{
    let raw = head + rest;
    let at = head.len() + from;
    if from + word.len() <= rest.len() {
        assert(raw.subrange(at, at + word.len()) =~= rest.subrange(from, from + word.len()));
    }
    assert(parse::word_at(raw, word, at) == parse::word_at(rest, word, from));
    lemma_break_moves_along(head, rest, from);
    lemma_break_inside(rest, from);
    let end = version::first_break(rest, from);
    if !parse::word_at(rest, word, from) && end < rest.len() {
        lemma_lines_move_along(head, rest, word, end + 1);
    }
}

} // verus!
