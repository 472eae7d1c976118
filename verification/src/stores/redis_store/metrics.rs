//! Metrics of the queue, its workers and its processes.
use super::command::{command_with_one, command_with_three, command_with_two};
use super::version;
use super::{RedisStore, RedisVersion};
use crate::job::JobState;
use crate::metrics::WorkerMetrics;
use crate::outside::lowercase;
use crate::outside::pipeline::{self, command_of, pipeline_add, pipeline_atomic, pipeline_new};
use crate::outside::uuid::{self, uuid_text};
use crate::queue::{CollectionSuffix, QueueEventMode, QueueMetrics};
use crate::time::{self, Dt};
use crate::utils::sequences;
use crate::utils::text::{self, decimal, signed};
use vstd::prelude::*;

verus! {

/// What the server replies to the queries for the queue's metrics, in their
/// order.
#[derive(Debug, Clone, Copy, PartialEq, Eq, Structural)]
pub struct MetricsReply {
    /// Completed jobs.
    pub completed: Option<u64>,
    /// Failed jobs.
    pub failed: Option<u64>,
    /// Jobs with a priority.
    pub prioritized: Option<u64>,
    /// Active jobs.
    pub active: Option<u64>,
    /// Stalled jobs.
    pub stalled: Option<u64>,
    /// Delayed jobs.
    pub delayed: Option<u64>,
    /// Waiting jobs.
    pub waiting: Option<u64>,
    /// Paused jobs.
    pub paused: Option<u64>,
    /// The highest id.
    pub last_id: Option<u64>,
    /// How many jobs are being processed.
    pub processing: Option<u64>,
    /// How events are delivered.
    pub event_mode: Option<QueueEventMode>,
    /// Whether the queue is paused.
    pub is_paused: bool,
}

/// The queries for the metrics of the queue `name`.
pub open spec fn metrics_words(prefix: Seq<char>, name: Seq<char>) -> Seq<Seq<Seq<char>>> {
    let key = |col: CollectionSuffix|
        lowercase::compact_lowercase(col.full_name(prefix, name));
    seq![
        seq!["ZCARD"@, key(CollectionSuffix::Completed)],
        seq!["ZCARD"@, key(CollectionSuffix::Failed)],
        seq!["ZCARD"@, key(CollectionSuffix::Prioritized)],
        seq!["LLEN"@, key(CollectionSuffix::Active)],
        seq!["SCARD"@, key(CollectionSuffix::Stalled)],
        seq!["ZCARD"@, key(CollectionSuffix::Delayed)],
        seq!["LLEN"@, key(CollectionSuffix::Wait)],
        seq!["LLEN"@, key(CollectionSuffix::Paused)],
        seq!["GET"@, key(CollectionSuffix::Id)],
        seq!["HGET"@, key(CollectionSuffix::Meta), "processing"@],
        seq!["HGET"@, key(CollectionSuffix::Meta), "event_mode"@],
        seq!["HEXISTS"@, key(CollectionSuffix::Meta), JobState::Paused.lower_words()],
    ]
}

/// The queries for the metrics of the queue `name`, as one transaction.
pub fn get_queue_metrics(prefix: &str, name: &str) -> (queries: redis::Pipeline)
    ensures
        pipeline::in_transaction(queries),
        pipeline::commands(queries) == metrics_words(prefix@, name@),
{
    let completed = CollectionSuffix::Completed.to_collection_name(prefix, name);
    let failed = CollectionSuffix::Failed.to_collection_name(prefix, name);
    let prioritized = CollectionSuffix::Prioritized.to_collection_name(prefix, name);
    let active = CollectionSuffix::Active.to_collection_name(prefix, name);
    let stalled = CollectionSuffix::Stalled.to_collection_name(prefix, name);
    let delayed = CollectionSuffix::Delayed.to_collection_name(prefix, name);
    let waiting = CollectionSuffix::Wait.to_collection_name(prefix, name);
    let paused = CollectionSuffix::Paused.to_collection_name(prefix, name);
    let id = CollectionSuffix::Id.to_collection_name(prefix, name);
    let meta = CollectionSuffix::Meta.to_collection_name(prefix, name);
    let field = JobState::Paused.lower_name();
    let mut queries = pipeline_new();
    pipeline_atomic(&mut queries);
    pipeline_add(&mut queries, command_with_one("ZCARD", completed.as_str()));
    pipeline_add(&mut queries, command_with_one("ZCARD", failed.as_str()));
    pipeline_add(&mut queries, command_with_one("ZCARD", prioritized.as_str()));
    pipeline_add(&mut queries, command_with_one("LLEN", active.as_str()));
    pipeline_add(&mut queries, command_with_one("SCARD", stalled.as_str()));
    pipeline_add(&mut queries, command_with_one("ZCARD", delayed.as_str()));
    pipeline_add(&mut queries, command_with_one("LLEN", waiting.as_str()));
    pipeline_add(&mut queries, command_with_one("LLEN", paused.as_str()));
    pipeline_add(&mut queries, command_with_one("GET", id.as_str()));
    pipeline_add(&mut queries, command_with_two("HGET", meta.as_str(), "processing"));
    pipeline_add(&mut queries, command_with_two("HGET", meta.as_str(), "event_mode"));
    pipeline_add(&mut queries, command_with_two("HEXISTS", meta.as_str(), field.as_str()));
    assert(pipeline::commands(queries) =~= metrics_words(prefix@, name@));
    queries
}

/// The metrics that a reply gives: what is absent counts as zero, and an absent
/// event mode as the default.
pub fn queue_metrics_from(reply: &MetricsReply) -> (metrics: QueueMetrics)
    ensures
        metrics == (QueueMetrics {
            last_id: super::number_or_zero(reply.last_id),
            processing: super::number_or_zero(reply.processing),
            prioritized: super::number_or_zero(reply.prioritized),
            active: super::number_or_zero(reply.active),
            stalled: super::number_or_zero(reply.stalled),
            delayed: super::number_or_zero(reply.delayed),
            completed: super::number_or_zero(reply.completed),
            failed: super::number_or_zero(reply.failed),
            paused: super::number_or_zero(reply.paused),
            waiting: super::number_or_zero(reply.waiting),
            is_paused: reply.is_paused,
            event_mode: match reply.event_mode {
                Some(event_mode) => event_mode,
                None => QueueEventMode::Stream,
            },
        }),
{
    QueueMetrics {
        last_id: count(reply.last_id),
        processing: count(reply.processing),
        prioritized: count(reply.prioritized),
        active: count(reply.active),
        stalled: count(reply.stalled),
        delayed: count(reply.delayed),
        completed: count(reply.completed),
        failed: count(reply.failed),
        paused: count(reply.paused),
        waiting: count(reply.waiting),
        is_paused: reply.is_paused,
        event_mode: match reply.event_mode {
            Some(event_mode) => event_mode,
            None => QueueEventMode::default(),
        },
    }
}

/// The number, or zero where there is none.
fn count(number: Option<u64>) -> (count: u64)
    ensures
        count == super::number_or_zero(number),
{
    match number {
        Some(number) => number,
        None => 0,
    }
}

/// The field that a process's metrics are stored under: `{hostname}-Pid({pid})`.
pub fn process_field(hostname: &str, pid: u32) -> (field: String)
    ensures
        field@ == hostname@ + "-Pid("@ + text::decimal_digits(pid as nat) + ")"@,
{
    let mut field = String::from_str(hostname);
    field.append("-Pid(");
    field.append(decimal(pid as u64).as_str());
    field.append(")");
    field
}

/// The field that a worker's metrics are stored under: its id.
pub fn worker_field(worker_id: u128) -> (field: String)
    ensures
        field@ == uuid::hyphenated(worker_id),
{
    uuid_text(worker_id)
}

/// A hundred times `ttl_ms`, or the largest number where that is more.
pub open spec fn hundredfold(ttl_ms: u64) -> u64 {
    if ttl_ms * 100 <= u64::MAX {
        (ttl_ms * 100) as u64
    } else {
        u64::MAX
    }
}

/// Holds of metrics that have not outlived their time at `now`, by more than
/// twenty milliseconds.
pub open spec fn is_current(now: Dt) -> spec_fn(WorkerMetrics) -> bool {
    |metrics: WorkerMetrics|
        time::whole_millis(now@ - metrics.last_updated@) <= (metrics.ttl_ms as i64) + 20
}

/// The metrics that have not outlived their time at `now`.
pub fn current_worker_metrics(results: Vec<WorkerMetrics>, now: &Dt) -> (current: Vec<
    WorkerMetrics,
>)
    ensures
        current@ == results@.filter(is_current(*now)),
{
    let ghost all = results@;
    let ghost keep = is_current(*now);
    let mut todo = results;
    let mut rest: Vec<WorkerMetrics> = Vec::new();
    while todo.len() > 0
        invariant
            todo@ + rest@.reverse() =~= all,
        decreases todo.len(),
    {
        if let Some(metrics) = todo.pop() {
            rest.push(metrics);
        }
    }
    assert(rest@.reverse() =~= all);
    let mut current: Vec<WorkerMetrics> = Vec::new();
    proof {
        reveal(Seq::filter);
        assert(all.take(0) =~= Seq::empty());
    }
    while rest.len() > 0
        invariant
            keep == is_current(*now),
            rest@.len() <= all.len(),
            rest@ =~= all.skip(all.len() - rest@.len()).reverse(),
            current@ == all.take(all.len() - rest@.len()).filter(keep),
        decreases rest.len(),
    {
        let ghost left = rest@;
        let ghost k = all.len() - left.len();
        proof {
            sequences::lemma_filter_step(all, k, keep);
        }
        if let Some(metrics) = rest.pop() {
            assert(left[left.len() - 1] == all[k]);
            let age: i64 = now.millis_since(&metrics.last_updated);
            if (age as i128) <= (metrics.ttl_ms as i64) as i128 + 20 {
                current.push(metrics);
            }
        }
    }
    assert(all.take(all.len() as int) =~= all);
    current
}

impl RedisStore {
    /// The commands that store metrics, in writing, in the field `field` of
    /// `col`. A server of version 7.4 or later lets the field expire after
    /// `ttl_ms` milliseconds; any other lets the whole collection expire after
    /// a hundred times that.
    pub fn store_metrics(
        &self,
        col: CollectionSuffix,
        field: &str,
        metrics: &str,
        ttl_ms: u64,
    ) -> (commands: redis::Pipeline)
        ensures
            if self.redis_version.reaches((RedisVersion { major: 7, minor: 4, patch: 0 })) {
                &&& !pipeline::in_transaction(commands)
                &&& pipeline::commands(commands) == seq![
                    seq![
                        "HSETEX"@,
                        self.key_words(col),
                        "PX"@,
                        text::decimal_digits(ttl_ms as nat),
                        "FIELDS"@,
                        "1"@,
                        field@,
                        metrics@,
                    ],
                ]
            } else {
                &&& pipeline::in_transaction(commands)
                &&& pipeline::commands(commands) == seq![
                    seq!["HSET"@, self.key_words(col), field@, metrics@],
                    seq![
                        "PEXPIRE"@,
                        self.key_words(col),
                        text::signed_digits((hundredfold(ttl_ms) as i64) as int),
                    ],
                ]
            },
    {
        proof {
            lemma_field_expiry_version();
        }
        let key = self.key(col);
        let mut commands = pipeline_new();
        let expires_fields = match self.redis_version.is_at_least("7.4.0") {
            Some(reached) => reached,
            None => false,
        };
        if expires_fields {
            let mut words: Vec<String> = Vec::new();
            words.push(String::from_str("HSETEX"));
            words.push(key);
            words.push(String::from_str("PX"));
            words.push(decimal(ttl_ms));
            words.push(String::from_str("FIELDS"));
            words.push(String::from_str("1"));
            words.push(String::from_str(field));
            words.push(String::from_str(metrics));
            let ghost expected = seq![
                "HSETEX"@,
                self.key_words(col),
                "PX"@,
                text::decimal_digits(ttl_ms as nat),
                "FIELDS"@,
                "1"@,
                field@,
                metrics@,
            ];
            assert(pipeline::words_of(words@) =~= expected);
            pipeline_add(&mut commands, command_of(words));
            assert(pipeline::commands(commands) =~= seq![expected]);
            return commands;
        }
        let lifetime: u64 = match ttl_ms.checked_mul(100) {
            Some(lifetime) => lifetime,
            None => u64::MAX,
        };
        pipeline_atomic(&mut commands);
        pipeline_add(&mut commands, command_with_three("HSET", key.as_str(), field, metrics));
        pipeline_add(
            &mut commands,
            command_with_two("PEXPIRE", key.as_str(), signed(lifetime as i64).as_str()),
        );
        assert(pipeline::commands(commands) =~= seq![
            seq!["HSET"@, self.key_words(col), field@, metrics@],
            seq![
                "PEXPIRE"@,
                self.key_words(col),
                text::signed_digits((hundredfold(ttl_ms) as i64) as int),
            ],
        ]);
        commands
    }

    /// The command that reads all metrics in `col`.
    pub fn fetch_metrics(&self, col: CollectionSuffix) -> (command: redis::Cmd)
        ensures
            pipeline::arguments(command) == seq!["HVALS"@, self.key_words(col)],
    {
        command_with_one("HVALS", self.key(col).as_str())
    }
}

/// What `7.4.0` stands for.
proof fn lemma_field_expiry_version()
    ensures
        version::version_of("7.4.0"@) == Some(RedisVersion { major: 7, minor: 4, patch: 0 }),
{
    reveal_strlit("7.4.0");
    let text = "7.4.0"@;
    crate::utils::parse::lemma_position(text, '.', 0, 1);
    crate::utils::parse::lemma_position(text, '.', 2, 3);
    assert(text.subrange(0, 1) =~= seq!['7']);
    assert(text.subrange(2, 3) =~= seq!['4']);
    assert(text.subrange(4, 5) =~= seq!['0']);
    lemma_one_digit('7', 7);
    lemma_one_digit('4', 4);
    lemma_one_digit('0', 0);
}

/// The number that one digit stands for.
proof fn lemma_one_digit(c: char, value: u64)
    requires
        crate::utils::parse::is_digit(c),
        value == c as nat - '0' as nat,
    ensures
        crate::utils::parse::number_of(seq![c], u32::MAX as u64) == Some(value),
{
    assert(seq![c].drop_last() =~= Seq::empty());
    reveal_with_fuel(crate::utils::parse::digits_value, 2);
}

} // verus!
