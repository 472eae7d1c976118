use kiomq::error::{JobError, KioError, QueueError};
use kiomq::events::EventParameters;
use kiomq::events::stream::{
    read_number_text, read_plain, EventField, EventValue, QueueStreamEvent, StreamEventId,
};
use kiomq::job::{
    FailedDetails, Job, JobDelay, JobMetrics, JobOptions, JobState, JobToken, Repeat, Trace,
};
use kiomq::queue::metrics::QueueMetrics;
use kiomq::queue::{CollectionSuffix, JobField, ProcessedResult, QueueEventMode, QueueOpts};
use kiomq::stores::InMemoryStore;
use kiomq::time::{Dt, TimeSpan};

type Store = InMemoryStore<i32, i32, i32, u64>;

fn store() -> Store {
    InMemoryStore::new(None, "videos")
}

fn add(store: &mut Store, name: &str, data: i32, opts: Option<JobOptions>) -> Job<i32, i32, i32> {
    let (job, _event) = store.add(name, opts, data, &QueueOpts::default(), false).unwrap();
    job
}

fn obliterate(store: &mut Store) {
    let last_id = store.get_metrics().last_id;
    store.clear_collections();
    store.clear_jobs(last_id);
}

fn at(millis: i64) -> Dt {
    Dt::from_timestamp_micros(millis * 1_000).unwrap()
}

#[test]
fn add_and_fetch_job_single() {
    let mut store = store();
    let job = add(&mut store, "test", 1, None);
    let metrics = store.get_metrics();
    assert_eq!(metrics.waiting, 1);
    let expected_id = metrics.last_id;
    assert_eq!(expected_id, 1);
    let fetched = store.get_job(expected_id).unwrap();
    assert_eq!(job.id, fetched.id);
    assert_eq!(fetched.state, JobState::Wait);
    assert_eq!(fetched.data, Some(1));
    assert_eq!(fetched.name, "test");
    assert_eq!(fetched.queue_name.as_deref(), Some("kio:videos"));
    assert_eq!(store.get_state(1), Some(JobState::Wait));
    assert!(store.job_exists(1));
    assert!(store.exists_in(CollectionSuffix::Wait, 1));
    obliterate(&mut store);
    assert!(!store.job_exists(1));
}

#[test]
fn add_bulk_jobs() {
    let mut store = store();
    let items: Vec<(String, Option<JobOptions>, i32)> =
        (0..4).map(|i| (i.to_string(), None, i)).collect();
    let (jobs, result) = store.add_bulk(items, &QueueOpts::default(), false);
    assert!(result.is_ok());
    assert_eq!(jobs.len(), 4);
    assert_eq!(store.get_metrics().waiting, jobs.len() as u64);
    assert_eq!(store.get_metrics().last_id, 4);
    let ids: Vec<Option<u64>> = jobs.iter().map(|(job, _)| job.id).collect();
    assert_eq!(ids, vec![Some(1), Some(2), Some(3), Some(4)]);
}

#[test]
fn obliterate_leaves_nothing() {
    let mut store = store();
    let items: Vec<(String, Option<JobOptions>, i32)> =
        (0..4).map(|i| (i.to_string(), None, i)).collect();
    let (events, result) = store.add_bulk_only(items, &QueueOpts::default(), false);
    assert!(result.is_ok());
    assert_eq!(store.get_metrics().waiting, events.len() as u64);
    obliterate(&mut store);
    assert_eq!(store.get_metrics().waiting, 0);
    assert!(store.fetch_jobs(&vec![1, 2, 3, 4]).is_empty());
}

#[test]
fn add_delayed_jobs() {
    let mut store = store();
    let opts = JobOptions {
        delay: 200.into(),
        ..Default::default()
    };
    let job = add(&mut store, "delay", 1, Some(opts));
    let metrics = store.get_metrics();
    assert!(metrics.has_delayed());
    assert_eq!(metrics.delayed, 1);
    let fetched = store.get_job(metrics.last_id).unwrap();
    assert_eq!(job.id, fetched.id);
    assert_eq!(fetched.delay, 200);
    assert_eq!(fetched.state, JobState::Delayed);
    assert!(matches!(fetched.opts.delay, JobDelay::TimeMilis(200)));
    assert!(matches!(job.opts.delay, JobDelay::TimeMilis(200)));
}

#[test]
fn add_prioritized() {
    let mut store = store();
    let opts = JobOptions {
        priority: 2,
        ..Default::default()
    };
    let job = add(&mut store, "Priorized", 1, Some(opts));
    let fetched = store.get_job(store.get_metrics().last_id).unwrap();
    assert_eq!(job.id, fetched.id);
    assert_eq!(fetched.priority, 2);
    assert_eq!(fetched.state, JobState::Prioritized);
    assert_eq!(store.get_metrics().prioritized, 1);
}

#[test]
fn pause_and_resume() {
    let mut store = store();
    add(&mut store, "one", 1, None);
    assert_eq!(store.get_metrics().waiting, 1);
    let event = store.pause(true);
    assert_eq!(event.event, JobState::Paused);
    let metrics = store.get_metrics();
    assert!(metrics.is_paused);
    assert_eq!(metrics.waiting, 0);
    assert_eq!(metrics.paused, 1, "paused is empty");
    let event = store.pause(false);
    assert_eq!(event.event, JobState::Resumed);
    let metrics = store.get_metrics();
    assert!(!metrics.is_paused);
    assert_eq!(metrics.waiting, 1, "waiting is empty");
    assert_eq!(metrics.paused, 0);
}

#[test]
fn pause_keeps_the_order() {
    let mut store = store();
    for i in 0..3 {
        add(&mut store, "job", i, None);
    }
    let before = store.get_job_ids_in_state(JobState::Wait, None, None);
    store.pause(true);
    store.pause(false);
    assert_eq!(store.get_job_ids_in_state(JobState::Wait, None, None), before);
}

#[test]
fn job_added_while_paused_waits_there() {
    let mut store = store();
    store.pause(true);
    let (job, event) = store.add("late", None, 1, &QueueOpts::default(), true).unwrap();
    assert_eq!(job.state, JobState::Wait);
    assert_eq!(event.event, JobState::Paused);
    assert_eq!(store.get_metrics().paused, 1);
    assert_eq!(store.get_metrics().waiting, 0);
}

#[test]
fn jobs_are_served_in_order() {
    let mut store = store();
    for i in 0..3 {
        add(&mut store, "job", i, None);
    }
    let wait = CollectionSuffix::Wait;
    let active = CollectionSuffix::Active;
    assert_eq!(store.pop_back_push_front(wait, active), Some(1));
    assert_eq!(store.pop_back_push_front(wait, active), Some(2));
    assert_eq!(store.get_job_ids_in_state(JobState::Active, None, None), vec![2, 1]);
    store.remove_item(active, 2);
    store.add_item(wait, 2, None, true);
    assert_eq!(store.pop_back_push_front(wait, active), Some(2));
    assert_eq!(store.pop_back_push_front(wait, active), Some(3));
    assert_eq!(store.pop_back_push_front(wait, active), None);
}

#[test]
fn given_id_is_kept() {
    let mut store = store();
    let opts = JobOptions {
        id: Some(77),
        ..Default::default()
    };
    assert_eq!(add(&mut store, "job", 1, Some(opts)).id, Some(77));
    assert!(store.get_job(77).is_some());
    assert_eq!(store.get_job_ids_in_state(JobState::Wait, None, None), vec![77]);
    assert_eq!(add(&mut store, "job", 1, None).id, Some(2));
}

#[test]
fn delayed_job_is_delayed_whatever_its_priority() {
    let mut store = store();
    let opts = |millis: i64| JobOptions {
        delay: millis.into(),
        priority: 0xFFFF_FFFF,
        ..Default::default()
    };
    let counter = 0x1_0000_0000;
    let mut job: Job<i32, i32, i32> = Job::new("a", Some(1), None, None);
    assert!(matches!(
        store.insert(&mut job, opts(0), counter, 1, "a", false),
        Err(KioError::GeneralError(_))
    ));
    assert!(matches!(
        store.insert(&mut job, opts(49), counter, 1, "a", false),
        Err(KioError::QueueError(QueueError::DelayBelowAllowedLimit {
            limit_ms: 50,
            current_ms: 49,
        }))
    ));
    assert!(store.insert(&mut job, opts(100), counter, 1, "a", false).is_ok());
    assert_eq!(job.state, JobState::Delayed);
    assert_eq!(store.get_job_ids_in_state(JobState::Delayed, None, None), vec![1]);
    assert!(store.get_job_ids_in_state(JobState::Prioritized, None, None).is_empty());
}

#[test]
fn metrics_live_from_when_they_were_stored_last() {
    let mut store = store();
    let milli = 1_000_000u128;
    store.store_process_metrics_at(7, 1, 50, 0);
    store.store_process_metrics_at(7, 2, 50, 40 * milli);
    assert_eq!(store.fetch_process_metrics_at(60 * milli), vec![(7, 2)]);
    assert!(store.fetch_process_metrics_at(90 * milli).is_empty());
}

#[test]
fn appended_items_stand_at_the_tail() {
    let mut store = store();
    let wait = CollectionSuffix::Wait;
    assert!(store.has_room(wait, true));
    store.add_item(wait, 1, None, true);
    store.add_item(wait, 2, None, true);
    assert_eq!(store.get_job_ids_in_state(JobState::Wait, None, None), vec![1, 2]);
    store.add_item(wait, 3, None, false);
    assert_eq!(store.get_job_ids_in_state(JobState::Wait, None, None), vec![3, 1, 2]);
}

#[test]
fn equal_scores_lose_no_job() {
    let mut store = store();
    let completed = CollectionSuffix::Completed;
    store.add_item(completed, 2, Some(10), false);
    store.add_item(completed, 1, Some(10), false);
    let now = store.now_for_jobs();
    assert!(store.exists_in_at(completed, 1, now));
    assert!(store.exists_in_at(completed, 2, now));
    assert_eq!(store.get_metrics().completed, 2);
    assert_eq!(store.get_job_ids_in_state(JobState::Completed, None, None), vec![1, 2]);
    assert_eq!(store.pop_set(completed, false), vec![(2, 10)]);
}

#[test]
fn scores_are_signed_numbers() {
    let mut store = store();
    let delayed = CollectionSuffix::Delayed;
    store.add_item(delayed, 1, Some(5), false);
    store.add_item(delayed, 2, Some(-5), false);
    assert_eq!(store.get_job_ids_in_state(JobState::Delayed, None, None), vec![2, 1]);
    let (due, missed) = store.get_delayed_at(-3, 3);
    assert_eq!(due, Vec::<u64>::new());
    assert_eq!(missed, vec![2]);
    assert_eq!(store.get_job_ids_in_state(JobState::Delayed, None, None), vec![1]);
    store.add_item(delayed, 2, Some(-5), false);
    assert_eq!(store.pop_set(delayed, true), vec![(2, u64::MAX - 4)]);
}

#[test]
fn pages_follow_each_other() {
    let mut store = store();
    for id in 0..5u64 {
        store.add_item(CollectionSuffix::Failed, id, Some(100 - id as i64), false);
    }
    let all = store.get_job_ids_in_state(JobState::Failed, None, None);
    assert_eq!(all, vec![4, 3, 2, 1, 0]);
    let mut pages = store.get_job_ids_in_state(JobState::Failed, None, Some(1));
    pages.extend(store.get_job_ids_in_state(JobState::Failed, Some(2), None));
    assert_eq!(pages, all);
    assert!(store.get_job_ids_in_state(JobState::Failed, Some(2), Some(5)).is_empty());
}

#[test]
fn large_priorities_keep_their_order() {
    let mut store = store();
    for priority in [0xFFFF_FFFFu64, 1, 0x8000_0000] {
        let opts = JobOptions {
            priority,
            ..Default::default()
        };
        add(&mut store, "job", 0, Some(opts));
    }
    assert_eq!(
        store.get_job_ids_in_state(JobState::Prioritized, None, None),
        vec![2, 3, 1]
    );
}

#[test]
fn event_fields_are_read() {
    let read = |field: EventField, bytes: &[u8]| read_plain::<i32, i32>(field, bytes.to_vec());
    assert_eq!(read_number_text(b"+42".to_vec()).unwrap(), 42);
    assert!(matches!(read_number_text(b"4x".to_vec()), Err(KioError::ParseIntError(_))));
    assert!(matches!(read_number_text(vec![0xFF]), Err(KioError::GeneralError(_))));
    assert!(matches!(read(EventField::JobId, b"7"), Some(Ok(EventValue::JobId(7)))));
    assert!(matches!(read(EventField::Delay, b"8"), Some(Ok(EventValue::Delay(Some(8))))));
    assert!(matches!(read(EventField::Priority, b"9"), Some(Ok(EventValue::Priority(Some(9))))));
    match read(EventField::Name, "caf\u{e9}".as_bytes()) {
        Some(Ok(EventValue::Name(Some(name)))) => assert_eq!(name, "caf\u{e9}"),
        _ => panic!("a name was expected"),
    }
    assert!(matches!(read(EventField::Name, &[0xC3]), Some(Err(KioError::GeneralError(_)))));
    assert!(read(EventField::Metrics, b"null").is_none());
}

#[test]
fn runs_prioritized_jobs_correctly() {
    let mut store = store();
    for i in 0..4u64 {
        let opts = JobOptions {
            priority: 4 - i,
            ..Default::default()
        };
        add(&mut store, "job", 0, Some(opts));
    }
    let mut served = Vec::new();
    loop {
        let popped = store.pop_set(CollectionSuffix::Prioritized, true);
        if popped.is_empty() {
            break;
        }
        served.push(popped[0].0);
    }
    assert_eq!(served, vec![4, 3, 2, 1]);
}

#[test]
fn due_and_missed_jobs_leave_the_delayed_set() {
    let mut store = store();
    store.add_item(CollectionSuffix::Delayed, 1, Some(90), false);
    store.add_item(CollectionSuffix::Delayed, 2, Some(100), false);
    store.add_item(CollectionSuffix::Delayed, 3, Some(200), false);
    store.add_item(CollectionSuffix::Delayed, 4, Some(201), false);
    let (due, missed) = store.get_delayed_at(100, 200);
    assert_eq!(due, vec![2, 3]);
    assert_eq!(missed, vec![1]);
    assert_eq!(store.get_job_ids_in_state(JobState::Delayed, None, None), vec![4]);
}

#[test]
fn delay_below_the_limit_is_refused() {
    let mut store = store();
    let opts = JobOptions {
        delay: 49.into(),
        ..Default::default()
    };
    let refused = store.add("soon", Some(opts), 1, &QueueOpts::default(), false);
    match refused {
        Err(KioError::QueueError(QueueError::DelayBelowAllowedLimit { limit_ms, current_ms })) => {
            assert_eq!(limit_ms, 50);
            assert_eq!(current_ms, 49);
        }
        _ => panic!("the delay should be refused"),
    }
    assert_eq!(store.get_metrics().delayed, 0);
}

#[test]
fn bulk_stops_at_the_refused_job() {
    let mut store = store();
    let refused = JobOptions {
        delay: 1.into(),
        ..Default::default()
    };
    let items = vec![
        ("a".to_string(), None, 1),
        ("b".to_string(), Some(refused), 2),
        ("c".to_string(), None, 3),
    ];
    let (added, result) = store.add_bulk(items, &QueueOpts::default(), false);
    assert_eq!(added.len(), 1);
    assert!(matches!(
        result,
        Err(KioError::QueueError(QueueError::DelayBelowAllowedLimit { .. }))
    ));
    assert_eq!(store.get_metrics().waiting, 1);
}

#[test]
fn queue_options_are_inherited() {
    let mut store = store();
    let queue_opts = QueueOpts {
        attempts: 5,
        ..QueueOpts::default()
    };
    let (job, _) = store.add("a", None, 1, &queue_opts, false).unwrap();
    assert_eq!(job.opts.attempts, 5);
    let own = JobOptions {
        attempts: 2,
        ..Default::default()
    };
    let (job, _) = store.add("b", Some(own), 1, &queue_opts, false).unwrap();
    assert_eq!(job.opts.attempts, 2);
}

#[test]
fn lock_is_held_until_it_expires() {
    let mut store = store();
    let token = JobToken(1, 2, 3);
    store.set_lock_at(CollectionSuffix::Lock(7), Some(token), 100, 0);
    assert_eq!(store.get_token_at(7, 99_000_000), Some(token));
    assert_eq!(store.get_token_at(7, 100_000_001), None);
    store.set_lock(CollectionSuffix::Lock(8), Some(token), 60_000);
    assert_eq!(store.get_token(8), Some(token));
    store.remove(CollectionSuffix::Lock(8));
    assert_eq!(store.get_token(8), None);
}

#[test]
fn fields_counters_and_progress_of_a_job() {
    let mut store = store();
    let mut job = add(&mut store, "job", 1, None);
    let reason = FailedDetails {
        run: 1,
        reason: "no".to_string(),
    };
    store.set_fields(
        1,
        vec![
            JobField::State(JobState::Failed),
            JobField::Payload(ProcessedResult::Failed(reason)),
            JobField::BackTrace(Trace {
                run: 1,
                reason: "no".to_string(),
                frames: vec!["f".to_string()],
            }),
        ],
    );
    let found = store.get_job(1).unwrap();
    assert_eq!(found.state, JobState::Failed);
    assert_eq!(found.failed_reason.unwrap().reason, "no");
    assert_eq!(found.stack_trace.len(), 1);
    let key = CollectionSuffix::Job(1);
    assert_eq!(store.incr(key, 1, Some("attemptsMade")), 1);
    assert_eq!(store.incr(key, 1, Some("attempts_made")), 2);
    assert_eq!(store.incr(key, 1, Some("unknown")), 0);
    assert_eq!(store.get_counter(key, Some("attemptsMade")), Some(2));
    store.update_job_progress(&mut job, 50);
    assert_eq!(job.progress, Some(50));
    assert_eq!(store.get_job(1).unwrap().progress, Some(50));
}

#[test]
fn events_are_read_from_the_store() {
    let store = store();
    let added: QueueStreamEvent<i32, i32> = QueueStreamEvent {
        job_id: 9,
        event: JobState::Wait,
        ..QueueStreamEvent::default()
    };
    match store.publish_event(added) {
        Ok(None) => {}
        _ => panic!("nobody listens"),
    }
}

#[test]
fn expired_record_is_gone() {
    let mut store = store();
    add(&mut store, "job", 1, None);
    let now = store.now_for_jobs();
    store.expire_at(CollectionSuffix::Job(1), 1, now);
    assert!(store.job_exists_at(1, now));
    assert!(!store.job_exists_at(1, now + 1_000_000_001));
}

#[test]
fn queue_metrics_say_what_is_to_do() {
    let fresh = QueueMetrics::default();
    assert!(!fresh.is_idle());
    assert!(!fresh.queue_has_work());
    let mut metrics = QueueMetrics::new(4, 0, 0, 0, 4, 0, 0, 0, 0, 0, false, QueueEventMode::PubSub);
    assert!(metrics.all_jobs_completed());
    assert!(metrics.is_idle());
    assert!(metrics.workers_idle());
    metrics.update(&QueueMetrics::new(5, 0, 1, 0, 4, 0, 0, 0, 0, 0, false, QueueEventMode::Stream));
    assert_eq!(metrics.last_id, 5);
    assert!(metrics.has_active_jobs());
    assert!(!metrics.is_idle());
    metrics.clear();
    assert_eq!(metrics.active, 0);
}

#[test]
fn collections_have_keys_and_tags() {
    let all = vec![
        CollectionSuffix::Active,
        CollectionSuffix::Completed,
        CollectionSuffix::Delayed,
        CollectionSuffix::Stalled,
        CollectionSuffix::Prioritized,
        CollectionSuffix::PriorityCounter,
        CollectionSuffix::Id,
        CollectionSuffix::Meta,
        CollectionSuffix::Events,
        CollectionSuffix::Wait,
        CollectionSuffix::Paused,
        CollectionSuffix::Failed,
        CollectionSuffix::Marker,
        CollectionSuffix::Job(12),
        CollectionSuffix::Prefix,
        CollectionSuffix::Lock(12),
        CollectionSuffix::StalledCheck,
        CollectionSuffix::WorkerMetrics,
        CollectionSuffix::ProcessMetrics,
    ];
    for suffix in all {
        assert_eq!(CollectionSuffix::from_tag(suffix.tag()), Some(suffix));
        assert_eq!(suffix.to_bytes(), suffix.tag().to_be_bytes());
    }
    assert_eq!(CollectionSuffix::from_tag(u64::MAX), None);
    assert_eq!(CollectionSuffix::Wait.to_collection_name("KIO", "videos"), "kio:videos:wait");
    assert_eq!(CollectionSuffix::Job(12).to_collection_name("kio", "videos"), "kio:videos:12");
    assert_eq!(CollectionSuffix::from(JobState::Wait), CollectionSuffix::Wait);
}

#[test]
fn event_modes_have_bytes() {
    assert_eq!(QueueEventMode::PubSub.as_u8(), 1);
    assert_eq!(QueueEventMode::Stream.as_u8(), 0);
    assert!(matches!(QueueEventMode::try_from(1), Ok(QueueEventMode::PubSub)));
    assert!(matches!(QueueEventMode::try_from(0), Ok(QueueEventMode::Stream)));
    assert!(matches!(
        QueueEventMode::try_from(2),
        Err(QueueError::UnKnownEventMode)
    ));
    assert_eq!(QueueEventMode::from_stored(None), QueueEventMode::Stream);
}

#[test]
fn event_becomes_parameters() {
    let event: QueueStreamEvent<i32, i32> = QueueStreamEvent {
        id: StreamEventId(at(5), 0),
        job_id: 9,
        event: JobState::Delayed,
        delay: Some(1_500),
        ..QueueStreamEvent::default()
    };
    match EventParameters::from_queue_event(event) {
        Ok(EventParameters::Delayed { job_id, delay }) => {
            assert_eq!(job_id, 9);
            assert_eq!(delay, TimeSpan { secs: 1, nanos: 500_000_000 });
        }
        _ => panic!("a delayed event was expected"),
    }
    let done: QueueStreamEvent<i32, i32> = QueueStreamEvent {
        job_id: 9,
        event: JobState::Completed,
        returned_value: Some(3),
        metrics: Some(JobMetrics {
            attempt: 2,
            id: 9,
            ..JobMetrics::default()
        }),
        ..QueueStreamEvent::default()
    };
    match EventParameters::from_queue_event(done) {
        Ok(EventParameters::Completed { job_id, job_metrics, result, .. }) => {
            assert_eq!((job_id, job_metrics.attempt, result), (9, 2, 3));
        }
        _ => panic!("a completed event was expected"),
    }
}

#[test]
fn errors_have_words() {
    let conversion = KioError::ConversionError {
        from: "a".to_string(),
        to: "b".to_string(),
    };
    assert_eq!(conversion.message(), "Failed to Convert: from a to b");
    assert_eq!(KioError::EmitterError("gone".to_string()).message(), "Emitter: gone");
    assert_eq!(
        KioError::JobError(JobError::JobNotFound).message(),
        "The job does not exist"
    );
    assert_eq!(KioError::JsonError("bad".to_string()).message(), "bad");
    assert_eq!(JobError::JobNotFound.code(), -1);
    assert_eq!(JobError::JobLockNotExist.code(), -2);
    assert!(!JobError::MissedDelayDeadline.message().is_empty());
    let limit = QueueError::DelayBelowAllowedLimit {
        limit_ms: 50,
        current_ms: 7,
    };
    assert!(limit.message().contains("50"));
    assert!(limit.message().contains('7'));
}

#[test]
fn repeat_policies_give_the_next_run() {
    let backoff: kiomq::job::BackOff<fn(i64, i64) -> i64> = kiomq::job::BackOff::new();
    let now = at(10_000);
    let every = Repeat::repeat_every_for_times(500, Some(2));
    assert_eq!(every.next_occurrence_at(&backoff, 1, &now), Some(10_500));
    assert_eq!(every.next_occurrence_at(&backoff, 2, &now), None);
    assert_eq!(Repeat::Immediately(1).next_occurrence_at(&backoff, 0, &now), Some(0));
    assert_eq!(Repeat::Immediately(1).next_occurrence_at(&backoff, 1, &now), None);
    let retry = Repeat::from_back_off(kiomq::job::BackOffJobOptions::Number(70));
    assert_eq!(retry.next_occurrence_at(&backoff, 3, &now), Some(10_070));
    let cron = Repeat::from_cron_str("* * * * *").unwrap();
    assert_eq!(cron.next_occurrence_at(&backoff, 0, &now), Some(60_000));
    assert!(Repeat::from_cron_str("not a pattern").is_err());
    assert!(Repeat::try_from("0 0 1 1 *").is_ok());
}

#[test]
fn there_is_room_and_the_queue_says_whether_it_is_paused() {
    let mut store = store();
    assert!(store.has_room(CollectionSuffix::Wait, true));
    assert!(store.has_room(CollectionSuffix::Active, false));
    assert!(store.bulk_room() > 1_000);
    assert!(store.can_pause(true) && store.can_pause(false));
    assert!(!store.get_metrics().queue_is_paused());
    store.pause(true);
    assert!(store.get_metrics().queue_is_paused());
}

#[test]
fn counter_that_was_added_to_is_read_back() {
    let mut store = store();
    let job = add(&mut store, "test", 1, None);
    let key = CollectionSuffix::Job(job.id.unwrap());
    for field in ["attempts_made", "attemptsMade", "stalled_counter", "stalledCounter"] {
        let next = store.incr(key, 3, Some(field));
        assert_eq!(store.get_counter(key, Some(field)), Some(next));
    }
    assert_eq!(store.get_counter(key, Some("attemptsMade")), Some(6));
    for key in [
        CollectionSuffix::Id,
        CollectionSuffix::PriorityCounter,
        CollectionSuffix::Meta,
    ] {
        let next = store.incr(key, 4, None);
        assert_eq!(store.get_counter(key, None), Some(next));
    }
}

#[test]
fn taken_job_is_active() {
    let mut store = store();
    for name in ["a", "b", "c"] {
        add(&mut store, name, 1, None);
    }
    let taken = store.pop_back_push_front(CollectionSuffix::Wait, CollectionSuffix::Active);
    assert_eq!(taken, Some(1));
    assert_eq!(store.get_job_ids_in_state(JobState::Wait, None, None), vec![3, 2]);
    assert_eq!(store.get_job_ids_in_state(JobState::Active, None, None), vec![1]);
    assert_eq!(
        store.pop_back_push_front(CollectionSuffix::Active, CollectionSuffix::Wait),
        Some(1)
    );
    assert_eq!(store.get_job_ids_in_state(JobState::Wait, None, None), vec![1, 3, 2]);
    assert_eq!(
        store.pop_back_push_front(CollectionSuffix::Wait, CollectionSuffix::Wait),
        Some(2)
    );
    assert_eq!(store.get_job_ids_in_state(JobState::Wait, None, None), vec![2, 1, 3]);
    assert_eq!(
        store.pop_back_push_front(CollectionSuffix::Wait, CollectionSuffix::Delayed),
        None
    );
    assert_eq!(store.get_job_ids_in_state(JobState::Wait, None, None), vec![2, 1, 3]);
}
