use kiomq::error::{KioError, QueueError};
use kiomq::events::QueueStreamEvent;
use kiomq::job::{Job, JobOptions, JobState};
use kiomq::metrics::worker_metrics::WorkerMetrics;
use kiomq::queue::{CollectionSuffix, QueueEventMode, QueueOpts};
use kiomq::stores::redis_store::command::split_pipeline;
use kiomq::stores::redis_store::insertion::prepare_for_insert;
use kiomq::stores::redis_store::metrics::{
    current_worker_metrics, get_queue_metrics, process_field, queue_metrics_from, worker_field,
    MetricsReply,
};
use kiomq::stores::redis_store::operations::{stream_items, Presence};
use kiomq::stores::redis_store::records::{
    job_from_hash, job_from_values, read_plain, JobHashField, JobValue,
};
use kiomq::stores::redis_store::writing::job_pairs;
use kiomq::stores::{RedisStore, RedisVersion};
use kiomq::time::Dt;

const INFO: &str = "# Server\r\nredis_version:7.2.4\r\nredis_mode:standalone\r\n";

fn store_with(info: &str) -> RedisStore {
    RedisStore::new(Some("kio"), "Videos", 7, info).unwrap()
}

fn store() -> RedisStore {
    store_with(INFO)
}

fn words(command: &redis::Cmd) -> Vec<String> {
    command
        .args_iter()
        .map(|arg| match arg {
            redis::Arg::Simple(bytes) => String::from_utf8(bytes.to_vec()).unwrap(),
            _ => panic!("a plain argument was expected"),
        })
        .collect()
}

fn lines(pipeline: &redis::Pipeline) -> Vec<String> {
    pipeline.cmd_iter().map(|command| words(command).join(" ")).collect()
}

fn line(command: &redis::Cmd) -> String {
    words(command).join(" ")
}

fn in_transaction(pipeline: &redis::Pipeline) -> bool {
    pipeline.get_packed_pipeline().starts_with(b"*1\r\n$5\r\nMULTI\r\n")
}

fn write_other(field: JobHashField, job: &Job<i32, i32, i32>) -> String {
    match field {
        JobHashField::State => job.state.lower_name(),
        JobHashField::Data => match job.data {
            Some(data) => data.to_string(),
            None => "null".to_string(),
        },
        _ => "null".to_string(),
    }
}

fn message(event: &QueueStreamEvent<i32, i32>) -> String {
    format!("{}!{}", event.event.lower_name(), event.job_id)
}

fn event_pairs(event: &QueueStreamEvent<i32, i32>) -> Vec<(String, String)> {
    vec![
        ("id".to_string(), "1-0".to_string()),
        ("event".to_string(), event.event.lower_name()),
        ("name".to_string(), "null".to_string()),
    ]
}

#[test]
fn version_is_read_from_the_info() {
    let version = RedisVersion::parse(INFO).unwrap();
    assert_eq!((version.major, version.minor, version.patch), (7, 2, 4));
    assert_eq!(version.is_at_least("7.2.4"), Some(true));
    assert_eq!(version.is_at_least("7.2.5"), Some(false));
    assert_eq!(version.is_at_least("6.9.9"), Some(true));
    assert_eq!(version.is_at_least("seven"), None);
    assert_eq!(RedisVersion::parse("redis_mode:standalone"), None);
    assert!(matches!(
        RedisStore::new(None, "videos", 7, ""),
        Err(KioError::IoError(_))
    ));
}

#[test]
fn store_is_named() {
    let store = store();
    assert_eq!(store.queue_name(), "videos");
    assert_eq!(store.queue_prefix(), "kio");
    assert_eq!(store.queue(), "kio:videos");
    assert_eq!(store.key(CollectionSuffix::Wait), "kio:videos:wait");
    assert_eq!(store.stream_key, "kio:videos:events");
    assert_eq!(store.consumer_name, "consumer-00000000-0000-0000-0000-000000000007");
    assert_eq!(
        store.consumer_group,
        "kio-kio-group-00000000-0000-0000-0000-000000000007"
    );
    let plain = RedisStore::new(None, "videos", 7, INFO).unwrap();
    assert_eq!(plain.queue(), "{kio}:videos");
}

#[test]
fn presence_is_asked_by_collection() {
    let store = store();
    let (command, presence) = store.exists_in(CollectionSuffix::Delayed, 5);
    assert_eq!(line(&command), "ZSCORE kio:videos:delayed 5");
    assert_eq!(presence, Presence::NotNil);
    let (command, presence) = store.exists_in(CollectionSuffix::Paused, 5);
    assert_eq!(line(&command), "LPOS kio:videos:paused 5");
    assert_eq!(presence, Presence::NotNil);
    let (command, presence) = store.exists_in(CollectionSuffix::Stalled, 5);
    assert_eq!(line(&command), "SISMEMBER kio:videos:stalled 5");
    assert_eq!(presence, Presence::Flag);
    let (command, _) = store.exists_in(CollectionSuffix::Job(5), 5);
    assert_eq!(line(&command), "EXISTS kio:videos:5");
}

#[test]
fn single_commands() {
    let store = store();
    assert_eq!(
        line(&store.metadata_field_exists("paused")),
        "HEXISTS kio:videos:meta paused"
    );
    assert_eq!(
        line(&store.set_event_mode(QueueEventMode::Stream)),
        "HSET kio:videos:meta event_mode 0"
    );
    assert_eq!(
        line(&store.pop_back_push_front(CollectionSuffix::Wait, CollectionSuffix::Active)),
        "RPOPLPUSH kio:videos:wait kio:videos:active"
    );
    assert_eq!(line(&store.get_job(3)), "HGETALL kio:videos:3");
    assert_eq!(line(&store.get_state(3)), "HGET kio:videos:3 state");
    assert_eq!(line(&store.get_token(3)), "GET kio:videos:3:lock");
    assert_eq!(line(&store.remove(CollectionSuffix::Job(3))), "DEL kio:videos:3");
    assert_eq!(line(&store.job_exists(3)), "EXISTS kio:videos:3");
    assert_eq!(
        line(&store.pop_set(CollectionSuffix::Prioritized, true)),
        "ZPOPMIN kio:videos:prioritized 1"
    );
    assert_eq!(
        line(&store.pop_set(CollectionSuffix::Prioritized, false)),
        "ZPOPMAX kio:videos:prioritized 1"
    );
    assert_eq!(
        line(&store.incr(CollectionSuffix::Id, 4, None)),
        "INCRBY kio:videos:id 4"
    );
    assert_eq!(
        line(&store.incr(CollectionSuffix::Job(3), -1, Some("attemptsMade"))),
        "HINCRBY kio:videos:3 attemptsMade -1"
    );
    assert_eq!(
        line(&store.set_fields(3, vec![("state".to_string(), "\"Wait\"".to_string())])),
        "HMSET kio:videos:3 state \"Wait\""
    );
    assert_eq!(line(&store.expire(CollectionSuffix::Job(3), 60)), "EXPIRE kio:videos:3 60");
}

#[test]
fn locks_are_set_with_a_deadline() {
    let store = store();
    let command = store.set_lock(CollectionSuffix::Lock(3), Some("token"), 500, 9).unwrap();
    assert_eq!(line(&command), "PSETEX kio:videos:3:lock 500 token");
    let command = store.set_lock(CollectionSuffix::StalledCheck, None, 500, -9).unwrap();
    assert!(line(&command).ends_with(" 500 -9"));
    assert!(store.set_lock(CollectionSuffix::Lock(3), None, 500, 9).is_none());
    assert!(store.set_lock(CollectionSuffix::Wait, Some("token"), 500, 9).is_none());
}

#[test]
fn items_are_added_and_removed() {
    let store = store();
    let added = store.add_item(CollectionSuffix::Delayed, 3, Some(70), false);
    assert_eq!(lines(&added), vec!["ZADD kio:videos:delayed 70 3"]);
    assert!(!in_transaction(&added));
    let added = store.add_item(CollectionSuffix::Wait, 3, None, true);
    assert_eq!(lines(&added), vec!["RPUSH kio:videos:wait 3"]);
    let added = store.add_item(CollectionSuffix::Wait, 3, None, false);
    assert_eq!(lines(&added), vec!["LPUSH kio:videos:wait 3"]);
    let added = store.add_item(CollectionSuffix::Stalled, 3, None, false);
    assert_eq!(lines(&added), vec!["SADD kio:videos:stalled 3"]);
    let removed = store.remove_item(CollectionSuffix::Active, 3);
    assert_eq!(lines(&removed), vec!["LREM kio:videos:active 1 3"]);
    assert!(lines(&store.remove_item(CollectionSuffix::Meta, 3)).is_empty());
}

#[test]
fn pausing_moves_the_waiting_list() {
    let store = store();
    let (commands, event) = store.pause::<i32, i32>(true, true);
    assert!(in_transaction(&commands));
    assert_eq!(
        lines(&commands),
        vec![
            "RENAME kio:videos:wait kio:videos:paused",
            "HSET kio:videos:meta paused 1"
        ]
    );
    assert_eq!(event.event, JobState::Paused);
    let (commands, event) = store.pause::<i32, i32>(false, false);
    assert_eq!(lines(&commands), vec!["HDEL kio:videos:meta paused"]);
    assert_eq!(event.event, JobState::Resumed);
    assert_eq!(RedisStore::paused_source(true), CollectionSuffix::Wait);
    assert_eq!(RedisStore::paused_source(false), CollectionSuffix::Paused);
}

#[test]
fn due_jobs_are_taken_in_one_transaction() {
    let commands = store().get_delayed_at(100, 200);
    assert!(in_transaction(&commands));
    assert_eq!(
        lines(&commands),
        vec![
            "ZRANGEBYSCORE kio:videos:delayed 100 200",
            "ZRANGEBYSCORE kio:videos:delayed -inf (100",
            "ZREMRANGEBYSCORE kio:videos:delayed 100 200",
            "ZREMRANGEBYSCORE kio:videos:delayed -inf 100",
        ]
    );
}

#[test]
fn records_are_cleared_up_to_the_last_id() {
    let commands = store().clear_jobs(2);
    assert_eq!(lines(&commands), vec!["DEL kio:videos:1", "DEL kio:videos:2"]);
    assert_eq!(lines(&store().clear_collections()).len(), 14);
    assert_eq!(
        lines(&store().fetch_jobs(&vec![4, 6])),
        vec!["HGETALL kio:videos:4", "HGETALL kio:videos:6"]
    );
}

#[test]
fn states_are_counted_and_ranged() {
    let store = store();
    assert_eq!(
        line(&store.count_in_state(JobState::Completed).unwrap()),
        "ZCARD kio:videos:completed"
    );
    assert_eq!(line(&store.count_in_state(JobState::Wait).unwrap()), "LLEN kio:videos:wait");
    let range = store.range_in_state(JobState::Wait, 9, Some(2), Some(4)).unwrap();
    assert_eq!(line(&range), "LRANGE kio:videos:wait 2 5");
    assert!(store.range_in_state(JobState::Wait, 0, None, None).is_none());
    assert_eq!(RedisStore::page_of_members(&vec![1, 2, 3], Some(1), Some(9)), vec![2, 3]);
    assert_eq!(RedisStore::page_of_members(&vec![1, 2, 3], Some(5), None), Vec::<u64>::new());
}

#[test]
fn events_are_published_or_streamed() {
    let store = store();
    let event: QueueStreamEvent<i32, i32> = QueueStreamEvent {
        job_id: 4,
        event: JobState::Active,
        ..QueueStreamEvent::default()
    };
    let command = store.publish_event(QueueEventMode::PubSub, &event, &event_pairs, &message);
    assert_eq!(line(&command), "PUBLISH kio:videos:events active!4");
    let command = store.publish_event(QueueEventMode::Stream, &event, &event_pairs, &message);
    assert_eq!(line(&command), "XADD kio:videos:events * event active");
    assert_eq!(stream_items(event_pairs(&event)).len(), 1);
}

#[test]
fn progress_is_stored_and_told() {
    let store = store();
    let mut job: Job<i32, i32, i32> = Job::new("clip", Some(1), Some(4), None);
    let commands = store
        .update_job_progress(&job, &50, "50", Some(QueueEventMode::PubSub), &message)
        .unwrap();
    assert_eq!(
        lines(&commands),
        vec![
            "HSET kio:videos:4 progress 50",
            "PUBLISH kio:videos:events progress!4"
        ]
    );
    let commands = store.update_job_progress(&job, &50, "50", None, &message).unwrap();
    assert_eq!(
        lines(&commands)[1],
        "XADD kio:videos:events * event progress job_id 4 data 50 name videos"
    );
    job.id = None;
    assert!(store.update_job_progress(&job, &50, "50", None, &message).is_none());
}

#[test]
fn jobs_are_added_in_one_pipeline() {
    let store = store();
    let urgent = JobOptions {
        priority: 2,
        ..JobOptions::default()
    };
    let items = vec![
        ("a".to_string(), None, 1),
        ("b".to_string(), Some(urgent), 2),
    ];
    let mut pipeline = redis::Pipeline::new();
    let jobs = store.add(
        items,
        &QueueOpts::default(),
        QueueEventMode::PubSub,
        false,
        true,
        Some(10),
        Some(7),
        &mut pipeline,
        &write_other,
        &message,
    );
    assert_eq!(jobs.len(), 2);
    assert_eq!(jobs[0].id, Some(11));
    assert_eq!(jobs[1].id, Some(12));
    assert_eq!(jobs[1].state, JobState::Prioritized);
    let sent = lines(&pipeline);
    assert!(sent[1].starts_with("HMSET kio:videos:11 id 11 timestamp "));
    assert!(sent[1].contains(" name \"a\" state wait progress null attemptsMade 0 "));
    assert!(sent.contains(&"LPUSH kio:videos:wait 11".to_string()));
    assert!(sent.contains(&"PUBLISH kio:videos:events wait!11".to_string()));
    assert!(sent.contains(&"INCRBY kio:videos:id 2".to_string()));
    assert!(sent.contains(&"INCRBY kio:videos:prioritycounter 1".to_string()));
}

#[test]
fn one_job_is_prepared() {
    let mut job: Job<i32, i32, i32> = Job::new("a", Some(1), Some(3), None);
    let opts = JobOptions {
        delay: 200.into(),
        ..JobOptions::default()
    };
    let mut pipeline = redis::Pipeline::new();
    let result = prepare_for_insert(
        "kio:videos",
        QueueEventMode::PubSub,
        false,
        3,
        0,
        opts,
        &mut job,
        "a",
        &mut pipeline,
        &write_other,
        &message,
    );
    assert!(result.is_ok());
    assert!(in_transaction(&pipeline));
    assert_eq!(job.state, JobState::Delayed);
    assert_eq!(job.delay, 200);
    assert!(lines(&pipeline).iter().any(|line| line.starts_with("ZADD kio:videos:delayed ")));
}

#[test]
fn long_pipelines_are_split() {
    let mut pipeline = redis::Pipeline::new();
    for id in 0..5u64 {
        pipeline.add_command(redis::cmd("DEL").arg(id).to_owned());
    }
    let batches = split_pipeline(&pipeline, 2);
    let sizes: Vec<usize> = batches.iter().map(|batch| batch.cmd_iter().count()).collect();
    assert_eq!(sizes, vec![2, 2, 1]);
    let again: Vec<String> = batches.iter().flat_map(lines).collect();
    assert_eq!(again, lines(&pipeline));
}

#[test]
fn queue_metrics_are_asked_and_read() {
    let queries = get_queue_metrics("kio", "videos");
    assert!(in_transaction(&queries));
    assert_eq!(queries.cmd_iter().count(), 12);
    let reply = MetricsReply {
        completed: Some(1),
        failed: None,
        prioritized: Some(3),
        active: Some(4),
        stalled: None,
        delayed: Some(6),
        waiting: Some(7),
        paused: None,
        last_id: Some(9),
        processing: Some(10),
        event_mode: Some(QueueEventMode::Stream),
        is_paused: true,
    };
    let metrics = queue_metrics_from(&reply);
    assert_eq!(metrics.completed, 1);
    assert_eq!(metrics.failed, 0);
    assert_eq!(metrics.prioritized, 3);
    assert_eq!(metrics.last_id, 9);
    assert_eq!(metrics.event_mode, QueueEventMode::Stream);
    assert!(metrics.is_paused);
}

#[test]
fn metrics_expire_with_their_field_or_key() {
    let commands = store().store_metrics(CollectionSuffix::WorkerMetrics, "w", "{}", 30);
    assert!(in_transaction(&commands));
    assert_eq!(commands.cmd_iter().count(), 2);
    assert!(lines(&commands)[1].starts_with("PEXPIRE "));
    assert!(lines(&commands)[1].ends_with(" 3000"));
    let newer = store_with("redis_version:7.4.0\n");
    let commands = newer.store_metrics(CollectionSuffix::WorkerMetrics, "w", "{}", 30);
    assert!(!in_transaction(&commands));
    assert!(lines(&commands)[0].ends_with(" PX 30 FIELDS 1 w {}"));
    assert_eq!(process_field("host", 12), "host-Pid(12)");
    assert_eq!(worker_field(1), "00000000-0000-0000-0000-000000000001");
}

#[test]
fn stale_worker_metrics_are_left_out() {
    let then = Dt::from_timestamp_micros(0).unwrap();
    let now = Dt::from_timestamp_micros(1_000_000).unwrap();
    let old = WorkerMetrics::new_at(1, 0, Vec::new(), 500, then);
    let fresh = WorkerMetrics::new_at(2, 0, Vec::new(), 500, now);
    let current = current_worker_metrics(vec![old, fresh], &now);
    assert_eq!(current.len(), 1);
    assert_eq!(current[0].worker_id, 2);
}

fn read(field: &str, bytes: &str) -> JobValue<i32, i32, i32> {
    let field = JobHashField::from_key(field).unwrap();
    read_plain(field, bytes.as_bytes().to_vec()).unwrap().unwrap()
}

#[test]
fn job_is_read_from_its_fields() {
    let values = vec![
        read("id", "4"),
        read("name", "\"clip\""),
        read("attemptsMade", "2"),
        read("queueName", "\"kio:videos\""),
        read("logs", "[\"one\",\"two\"]"),
        read("priority", "9"),
        read("timestamp", "1700000000000"),
        JobValue::State(JobState::Active),
        JobValue::Data(Some(5)),
    ];
    let job = job_from_values(values);
    assert_eq!(job.id, Some(4));
    assert_eq!(job.name, "clip");
    assert_eq!(job.attempts_made, 2);
    assert_eq!(job.queue_name.as_deref(), Some("kio:videos"));
    assert_eq!(job.logs, vec!["one", "two"]);
    assert_eq!(job.priority, 9);
    assert_eq!(job.state, JobState::Active);
    assert_eq!(job.data, Some(5));
    assert!(JobHashField::from_key("nothing").is_none());
    let refused: Option<Result<JobValue<i32, i32, i32>, KioError>> =
        read_plain(JobHashField::AttemptsMade, b"many".to_vec());
    assert!(matches!(refused, Some(Err(KioError::JsonError(_)))));
    let other: Option<Result<JobValue<i32, i32, i32>, KioError>> =
        read_plain(JobHashField::Data, b"1".to_vec());
    assert!(other.is_none());
}

fn read_other(
    field: JobHashField,
    bytes: Vec<u8>,
) -> Result<JobValue<i32, i32, i32>, KioError> {
    let text = String::from_utf8(bytes).unwrap();
    match field {
        JobHashField::State => match JobState::from_name(&text) {
            Some(state) => Ok(JobValue::State(state)),
            None => Err(KioError::GeneralError(text)),
        },
        JobHashField::Data => Ok(JobValue::Data(text.parse().ok())),
        JobHashField::Opts => Ok(JobValue::Opts(JobOptions::default())),
        JobHashField::Token => Ok(JobValue::Token(None)),
        JobHashField::Progress => Ok(JobValue::Progress(None)),
        JobHashField::ReturnedValue => Ok(JobValue::ReturnedValue(None)),
        JobHashField::StackTrace => Ok(JobValue::StackTrace(Vec::new())),
        JobHashField::FailedReason => Ok(JobValue::FailedReason(None)),
        _ => Err(KioError::GeneralError("a plain field".to_string())),
    }
}

fn hash(pairs: &[(&str, &str)]) -> Vec<(String, Vec<u8>)> {
    pairs
        .iter()
        .map(|(key, bytes)| (key.to_string(), bytes.as_bytes().to_vec()))
        .collect()
}

#[test]
fn job_is_read_from_its_hash() {
    let pairs = hash(&[
        ("state", "active"),
        ("somethingElse", "{"),
        ("timestamp", "1700000000000000"),
        ("name", "\"clip\""),
        ("data", "5"),
        ("id", "4"),
        ("finishedOn", "1700000000000001"),
        ("logs", "[\"one\"]"),
    ]);
    let job = job_from_hash(pairs, &read_other).unwrap();
    assert_eq!(job.id, Some(4));
    assert_eq!(job.name, "clip");
    assert_eq!(job.state, JobState::Active);
    assert_eq!(job.data, Some(5));
    assert_eq!(job.logs, vec!["one"]);
    assert_eq!(job.ts, Dt::from_timestamp_micros(1_700_000_000_000_000).unwrap());
    assert_eq!(job.finished_on, Dt::from_timestamp_micros(1_700_000_000_000_001));
    assert_eq!(job.processed_on, None);
}

#[test]
fn first_unreadable_field_of_a_hash_is_told() {
    let pairs = hash(&[("id", "4"), ("state", "nowhere"), ("delay", "many")]);
    assert!(matches!(job_from_hash(pairs, &read_other), Err(KioError::GeneralError(_))));
    let pairs = hash(&[("id", "4"), ("delay", "many"), ("state", "nowhere")]);
    assert!(matches!(job_from_hash(pairs, &read_other), Err(KioError::JsonError(_))));
}

fn recorded_job() -> Job<i32, i32, i32> {
    let mut job: Job<i32, i32, i32> =
        Job::new("say \"hi\"\n\u{1}\u{e9}", Some(5), Some(4), Some("kio:videos"));
    job.ts = Dt::from_timestamp_micros(1_700_000_000_000_001).unwrap();
    job.state = JobState::Active;
    job.attempts_made = 2;
    job.delay = 7;
    job.priority = u64::MAX;
    job.stalled_counter = 1;
    job.logs = vec!["one".to_string(), "\\two\t".to_string(), String::new()];
    job.processed_on = Dt::from_timestamp_micros(1_700_000_000_000_002);
    job
}

#[test]
fn fields_of_a_job_are_written() {
    let pairs = job_pairs(&recorded_job(), &write_other);
    assert_eq!(pairs.len(), 19);
    let text = |key: &str| pairs.iter().find(|(own, _)| own == key).unwrap().1.clone();
    assert_eq!(text("id"), "4");
    assert_eq!(text("timestamp"), "1700000000000001");
    assert_eq!(text("name"), "\"say \\\"hi\\\"\\n\\u0001\u{e9}\"");
    assert_eq!(text("processedOn"), "1700000000000002");
    assert_eq!(text("finishedOn"), "null");
    assert_eq!(text("priority"), "18446744073709551615");
    assert_eq!(text("queueName"), "\"kio:videos\"");
    assert_eq!(text("state"), "active");
    let mut early = recorded_job();
    early.id = None;
    early.queue_name = None;
    early.ts = Dt::from_timestamp_micros(-3).unwrap();
    let pairs = job_pairs(&early, &write_other);
    assert_eq!(pairs[0], ("id".to_string(), "null".to_string()));
    assert_eq!(pairs[1], ("timestamp".to_string(), "-3".to_string()));
    assert_eq!(pairs[14], ("queueName".to_string(), "null".to_string()));
}

#[test]
fn written_job_is_read_back() {
    let job = recorded_job();
    let mut hash: Vec<(String, Vec<u8>)> = job_pairs(&job, &write_other)
        .into_iter()
        .map(|(key, text)| (key, text.into_bytes()))
        .collect();
    hash.reverse();
    hash.insert(3, ("somethingElse".to_string(), b"{".to_vec()));
    let read = job_from_hash(hash, &read_other).unwrap();
    assert_eq!(read.id, job.id);
    assert_eq!(read.ts, job.ts);
    assert_eq!(read.name, job.name);
    assert_eq!(read.state, job.state);
    assert_eq!(read.attempts_made, job.attempts_made);
    assert_eq!(read.delay, job.delay);
    assert_eq!(read.data, job.data);
    assert_eq!(read.processed_on, job.processed_on);
    assert_eq!(read.finished_on, None);
    assert_eq!(read.queue_name, job.queue_name);
    assert_eq!(read.stalled_counter, job.stalled_counter);
    assert_eq!(read.logs, job.logs);
    assert_eq!(read.priority, job.priority);
}

#[test]
fn delayed_job_needs_no_score() {
    let mut job: Job<i32, i32, i32> = Job::new("a", Some(1), Some(3), None);
    let prepare = |millis: i64, job: &mut Job<i32, i32, i32>, pipeline: &mut redis::Pipeline| {
        let opts = JobOptions {
            delay: millis.into(),
            priority: 0xFFFF_FFFF,
            ..JobOptions::default()
        };
        prepare_for_insert(
            "kio:videos",
            QueueEventMode::PubSub,
            false,
            3,
            0x1_0000_0000,
            opts,
            job,
            "a",
            pipeline,
            &write_other,
            &message,
        )
    };
    let mut pipeline = redis::Pipeline::new();
    assert!(matches!(
        prepare(49, &mut job, &mut pipeline),
        Err(KioError::QueueError(QueueError::DelayBelowAllowedLimit {
            limit_ms: 50,
            current_ms: 49,
        }))
    ));
    assert_eq!(lines(&pipeline).len(), 0);
    assert!(matches!(
        prepare(0, &mut job, &mut pipeline),
        Err(KioError::GeneralError(_))
    ));
    assert!(prepare(100, &mut job, &mut pipeline).is_ok());
    assert_eq!(job.state, JobState::Delayed);
}

#[test]
fn given_id_is_kept_in_a_bulk() {
    let given = JobOptions {
        id: Some(77),
        ..JobOptions::default()
    };
    let mut pipeline = redis::Pipeline::new();
    let jobs = store().add(
        vec![
            ("a".to_string(), None, 1),
            ("b".to_string(), Some(given), 2),
            ("c".to_string(), None, 3),
        ],
        &QueueOpts::default(),
        QueueEventMode::PubSub,
        false,
        true,
        Some(10),
        None,
        &mut pipeline,
        &write_other,
        &message,
    );
    let ids: Vec<Option<u64>> = jobs.iter().map(|job| job.id).collect();
    assert_eq!(ids, vec![Some(11), Some(77), Some(13)]);
    assert!(lines(&pipeline).contains(&"LPUSH kio:videos:wait 77".to_string()));
}
