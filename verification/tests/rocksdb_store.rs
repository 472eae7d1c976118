use kiomq::error::{KioError, QueueError};
use kiomq::job::{Job, JobOptions, JobState, JobToken};
use kiomq::queue::{CollectionSuffix, QueueOpts};
use kiomq::stores::rocksdb_store::collections::{
    add_item, collection_of, exists_in, get_delayed_at, get_job_ids_in_state, initial_collections,
    item_exists_in_list, pop_back_push_front, pop_set, remove_item, Change, Meta, StoredQueue,
};
use kiomq::stores::rocksdb_store::insertion::{Batch, Counters};
use kiomq::stores::rocksdb_store::numbers::{bump, increment, number_bytes, stored_counter};
use kiomq::stores::rocksdb_store::{
    get_counter, incr, incr_job, incr_processing, job_counter, metadata_field_exists,
    pause_or_resume, tree_of, update_job_progress, CounterWrite, Tree,
};
use kiomq::stores::{ivec_to_number, RocksDbStore};

fn put(change: Result<Change, KioError>) -> Option<Vec<u8>> {
    match change {
        Ok(Change::Put(bytes)) => Some(bytes),
        _ => panic!("a new value was expected"),
    }
}

fn list(ids: &[u64]) -> Option<Vec<u8>> {
    let mut stored = None;
    for id in ids {
        stored = put(add_item(CollectionSuffix::Wait, stored, *id, None, true));
    }
    stored
}

fn scores(entries: &[(i64, u64)]) -> Option<Vec<u8>> {
    let mut stored = None;
    for (score, id) in entries {
        stored = put(add_item(CollectionSuffix::Delayed, stored, *id, Some(*score), false));
    }
    stored
}

fn ids(stored: Option<Vec<u8>>) -> Vec<u64> {
    get_job_ids_in_state(JobState::Wait, stored, None, None)
}

#[test]
fn numbers_are_stored_big_endian() {
    assert_eq!(number_bytes(258), vec![0, 0, 0, 0, 0, 0, 1, 2]);
    assert_eq!(ivec_to_number(&[0, 0, 0, 0, 0, 0, 1, 2]), 258);
    assert_eq!(ivec_to_number(&[0xFF; 8]), -1);
    assert_eq!(ivec_to_number(&[1, 2]), 0);
    assert_eq!(stored_counter(&number_bytes(77)), 77);
    assert_eq!(ivec_to_number(&increment(Some(&number_bytes(5)), -3)), 2);
    assert_eq!(bump(3, -3), Some(0));
    assert_eq!(bump(3, -4), None);
    assert_eq!(bump(u64::MAX, 1), None);
}

#[test]
fn lists_keep_their_order() {
    let stored = list(&[1, 2, 3]);
    assert_eq!(stored, Some(b"[1,2,3]".to_vec()));
    assert_eq!(ids(stored.clone()), vec![1, 2, 3]);
    let stored = put(add_item(CollectionSuffix::Wait, stored, 9, None, false));
    assert_eq!(ids(stored.clone()), vec![9, 1, 2, 3]);
    assert!(exists_in(CollectionSuffix::Wait, stored.clone(), 2));
    assert_eq!(item_exists_in_list(CollectionSuffix::Wait, stored.clone(), 5), Some(false));
    assert_eq!(item_exists_in_list(CollectionSuffix::Delayed, stored.clone(), 9), None);
    let stored = put(remove_item(CollectionSuffix::Wait, stored, 1));
    assert_eq!(ids(stored.clone()), vec![9, 2, 3]);
    assert_eq!(
        get_job_ids_in_state(JobState::Wait, stored, Some(1), Some(2)),
        vec![2, 3]
    );
}

#[test]
fn scored_sets_give_the_lowest_first() {
    let stored = scores(&[(30, 3), (10, 1), (20, 2)]);
    assert!(exists_in(CollectionSuffix::Delayed, stored.clone(), 2));
    let ((id, score), rest) = pop_set(CollectionSuffix::Delayed, stored.clone(), true)
        .unwrap()
        .unwrap();
    assert_eq!((id, score), (1, 10));
    assert!(!exists_in(CollectionSuffix::Delayed, Some(rest), 1));
    let ((id, score), _) = pop_set(CollectionSuffix::Delayed, stored, false).unwrap().unwrap();
    assert_eq!((id, score), (3, 30));
    assert!(matches!(pop_set(CollectionSuffix::Delayed, None, true), Ok(None)));
}

#[test]
fn equal_scores_keep_every_job() {
    let stored = scores(&[(10, 2), (10, 1), (5, 3)]);
    assert_eq!(stored, Some(b"[[0,5,3],[0,10,1],[0,10,2]]".to_vec()));
    assert!(exists_in(CollectionSuffix::Delayed, stored.clone(), 1));
    assert!(exists_in(CollectionSuffix::Delayed, stored.clone(), 2));
    assert_eq!(
        get_job_ids_in_state(JobState::Delayed, stored.clone(), None, None),
        vec![3, 1, 2]
    );
    let stored = put(remove_item(CollectionSuffix::Delayed, stored, 1));
    assert_eq!(get_job_ids_in_state(JobState::Delayed, stored, None, None), vec![3, 2]);
}

#[test]
fn older_form_of_a_sorted_set_is_read() {
    let older = Some(b"{\"20\":2,\"10\":1,\"18446744073709551615\":3}".to_vec());
    let delayed = CollectionSuffix::Delayed;
    assert!(exists_in(delayed, older.clone(), 2));
    assert_eq!(
        get_job_ids_in_state(JobState::Delayed, older.clone(), None, None),
        vec![1, 2, 3]
    );
    let stored = put(add_item(delayed, older, 4, Some(15), false));
    assert_eq!(
        stored,
        Some(b"[[0,10,1],[0,15,4],[0,20,2],[0,18446744073709551615,3]]".to_vec())
    );
    assert!(!exists_in(delayed, Some(b"{}".to_vec()), 1));
    assert!(!exists_in(delayed, Some(b"7".to_vec()), 7));
}

#[test]
fn given_id_is_kept_in_a_batch() {
    let store = RocksDbStore::new(None, "videos");
    let mut batch = Batch::new();
    let mut counters = Counters { id: 4, priority: 0 };
    let opts = JobOptions {
        id: Some(77),
        delay: 100.into(),
        priority: 0xFFFF_FFFF,
        ..JobOptions::default()
    };
    let (job, event): (Job<i32, i32, i32>, _) = store
        .add(&mut batch, &mut counters, "a", Some(opts), 1, &QueueOpts::default(), false)
        .unwrap();
    assert_eq!(job.id, Some(77));
    assert_eq!(event.job_id, 77);
    assert_eq!(counters, Counters { id: 5, priority: 1 });
    let mut late: Job<i32, i32, i32> = Job::new("b", Some(1), None, None);
    let opts = JobOptions {
        delay: 100.into(),
        priority: 0xFFFF_FFFF,
        ..JobOptions::default()
    };
    assert!(batch
        .prepare_for_insert(8, 0x1_0000_0000, false, &mut late, opts, "b")
        .is_ok());
    let submission = batch.submit_changes(false, None, None, None).unwrap();
    let stored = Some(submission.delayed);
    assert!(exists_in(CollectionSuffix::Delayed, stored.clone(), 77));
    assert!(exists_in(CollectionSuffix::Delayed, stored, 8));
}

#[test]
fn progress_and_metadata_fields() {
    let mut job: Job<i32, i32, i32> = Job::new("a", Some(1), Some(7), None);
    let stored: Job<i32, i32, i32> = Job::new("stored", Some(1), Some(7), None);
    let record = update_job_progress(Some(stored), &mut job, 50).unwrap();
    assert_eq!(record.progress, Some(50));
    assert_eq!(record.name, "stored");
    assert_eq!(job.progress, Some(50));
    assert!(update_job_progress(None, &mut job, 60).is_none());
    assert_eq!(job.progress, Some(60));
    let meta = Meta {
        processing: 0,
        paused: true,
    };
    assert!(metadata_field_exists(Some(meta), "paused"));
    assert!(metadata_field_exists(Some(meta), "processing"));
    assert!(!metadata_field_exists(Some(meta), "other"));
    assert!(!metadata_field_exists(Some(Meta::default()), "paused"));
    assert!(!metadata_field_exists(None, "processing"));
}

#[test]
fn scores_below_zero_come_first() {
    let stored = scores(&[(10, 1), (-10, 2), (i64::MIN, 3), (i64::MAX, 4)]);
    assert_eq!(
        stored,
        Some(
            b"[[-9223372036854775808,0,3],[-10,0,2],[0,10,1],[0,9223372036854775807,4]]".to_vec()
        )
    );
    assert_eq!(
        get_job_ids_in_state(JobState::Delayed, stored.clone(), None, None),
        vec![3, 2, 1, 4]
    );
    let (due, missed, rest) = get_delayed_at(stored.clone(), -10, 10).unwrap();
    assert_eq!(due, vec![2, 1]);
    assert_eq!(missed, vec![3]);
    assert_eq!(get_job_ids_in_state(JobState::Delayed, rest, None, None), vec![4]);
    let ((id, score), _) = pop_set(CollectionSuffix::Delayed, stored, true).unwrap().unwrap();
    assert_eq!((id, score), (3, 0x8000_0000_0000_0000));
}

#[test]
fn due_jobs_leave_the_stored_set() {
    let stored = scores(&[(90, 1), (100, 2), (200, 3), (201, 4)]);
    let (due, missed, rest) = get_delayed_at(stored, 100, 200).unwrap();
    assert_eq!(due, vec![2, 3]);
    assert_eq!(missed, vec![1]);
    assert_eq!(get_job_ids_in_state(JobState::Delayed, rest, None, None), vec![4]);
}

#[test]
fn stalled_ids_are_kept_once() {
    let stored = put(add_item(CollectionSuffix::Stalled, None, 4, None, false));
    let stored = put(add_item(CollectionSuffix::Stalled, stored, 4, None, false));
    assert_eq!(
        get_job_ids_in_state(JobState::Stalled, stored.clone(), None, None),
        vec![4]
    );
    let stored = put(remove_item(CollectionSuffix::Stalled, stored, 4));
    assert!(!exists_in(CollectionSuffix::Stalled, stored, 4));
    assert!(matches!(
        remove_item(CollectionSuffix::Job(4), None, 4),
        Ok(Change::Delete)
    ));
    assert!(matches!(
        add_item(CollectionSuffix::Meta, None, 4, None, false),
        Ok(Change::Keep)
    ));
}

#[test]
fn job_moves_from_list_to_list() {
    let wait = CollectionSuffix::Wait;
    let active = CollectionSuffix::Active;
    let (id, from, to) = pop_back_push_front(wait, active, list(&[3, 2, 1]), list(&[9])).unwrap();
    assert_eq!(id, 1);
    assert_eq!(ids(Some(from)), vec![3, 2]);
    assert_eq!(ids(Some(to)), vec![1, 9]);
    let (id, _, rotated) =
        pop_back_push_front(wait, wait, list(&[3, 2, 1]), list(&[3, 2, 1])).unwrap();
    assert_eq!(id, 1);
    assert_eq!(ids(Some(rotated)), vec![1, 3, 2]);
    assert!(pop_back_push_front(wait, active, None, None).is_none());
    let paused = CollectionSuffix::Paused;
    let (id, from, to) = pop_back_push_front(paused, wait, list(&[2, 1]), list(&[5])).unwrap();
    assert_eq!(id, 1);
    assert_eq!(ids(Some(from)), vec![2]);
    assert_eq!(ids(Some(to)), vec![1, 5]);
    assert!(pop_back_push_front(CollectionSuffix::Delayed, wait, list(&[1]), None).is_none());
}

#[test]
fn new_queue_is_empty() {
    let initial = initial_collections().unwrap();
    assert!(!initial.is_empty());
    let queue = StoredQueue {
        id: Some(number_bytes(6)),
        stalled: None,
        active: list(&[1]),
        completed: None,
        delayed: scores(&[(5, 2), (6, 3)]),
        waiting: list(&[4, 5, 6]),
        meta: Some(Meta {
            processing: 2,
            paused: true,
        }),
        prioritized: None,
        paused: None,
        failed: None,
    };
    let metrics = queue.get_metrics().unwrap();
    assert_eq!(metrics.last_id, 6);
    assert_eq!(metrics.active, 1);
    assert_eq!(metrics.delayed, 2);
    assert_eq!(metrics.waiting, 3);
    assert_eq!(metrics.processing, 2);
    assert!(metrics.is_paused);
    let broken = StoredQueue {
        id: None,
        stalled: None,
        active: Some(b"[1,".to_vec()),
        completed: None,
        delayed: None,
        waiting: None,
        meta: None,
        prioritized: None,
        paused: None,
        failed: None,
    };
    assert!(matches!(broken.get_metrics(), Err(KioError::JsonError(_))));
}

#[test]
fn batch_is_merged_with_what_is_stored() {
    let mut batch = Batch::new();
    let mut plain: Job<i32, i32, i32> = Job::new("a", Some(1), Some(7), None);
    batch
        .prepare_for_insert(7, 0, false, &mut plain, JobOptions::default(), "a")
        .unwrap();
    assert_eq!(plain.state, JobState::Wait);
    let mut late: Job<i32, i32, i32> = Job::new("b", Some(1), Some(8), None);
    let opts = JobOptions {
        delay: 500.into(),
        ..JobOptions::default()
    };
    batch.prepare_for_insert(8, 0, false, &mut late, opts, "b").unwrap();
    assert_eq!(late.state, JobState::Delayed);
    let mut soon: Job<i32, i32, i32> = Job::new("c", Some(1), Some(9), None);
    let opts = JobOptions {
        delay: 5.into(),
        ..JobOptions::default()
    };
    assert!(matches!(
        batch.prepare_for_insert(9, 0, false, &mut soon, opts, "c"),
        Err(KioError::QueueError(QueueError::DelayBelowAllowedLimit { .. }))
    ));
    let submission = batch.submit_changes(false, list(&[6]), None, None).unwrap();
    assert_eq!(submission.next_list, CollectionSuffix::Wait);
    assert_eq!(ids(Some(submission.list)), vec![7, 6]);
    assert_eq!(
        get_job_ids_in_state(JobState::Delayed, Some(submission.delayed), None, None),
        vec![8]
    );
}

#[test]
fn large_priorities_are_stored_in_order() {
    let mut batch = Batch::new();
    for (id, priority) in [(1, 0xFFFF_FFFF), (2, 0x8000_0000), (3, 1)] {
        let opts = JobOptions {
            priority,
            ..JobOptions::default()
        };
        let mut job: Job<i32, i32, i32> = Job::new("a", Some(1), Some(id), None);
        batch.prepare_for_insert(id, id, false, &mut job, opts, "a").unwrap();
    }
    let submission = batch.submit_changes(false, None, None, None).unwrap();
    let stored = Some(submission.prioritized);
    assert_eq!(
        get_job_ids_in_state(JobState::Prioritized, stored.clone(), None, None),
        vec![3, 2, 1]
    );
    let ((id, score), _) = pop_set(CollectionSuffix::Prioritized, stored, false).unwrap().unwrap();
    assert_eq!(id, 1);
    assert!(score > i64::MAX as u64);
}

#[test]
fn pausing_keeps_the_list() {
    let change = pause_or_resume::<i32, i32>(true, list(&[1, 2]), None);
    assert_eq!(change.source, CollectionSuffix::Wait);
    assert_eq!(change.target, CollectionSuffix::Paused);
    assert_eq!(ids(change.moved), vec![1, 2]);
    assert!(change.meta.paused);
    assert_eq!(change.event.event, JobState::Paused);
}

#[test]
fn counters_of_records() {
    let mut job: Job<i32, i32, i32> = Job::new("a", Some(1), Some(7), None);
    assert_eq!(incr_job(&mut job, "attemptsMade", 2), Some(2));
    assert_eq!(job_counter(&job, "attemptsMade"), 2);
    assert_eq!(incr_job(&mut job, "attemptsMade", -3), None);
    let mut meta = Meta::default();
    assert_eq!(incr_processing(&mut meta, 1), Some(1));
    assert_eq!(incr_processing(&mut meta, -5), Some(0));
    assert_eq!(tree_of(CollectionSuffix::Job(3)), Tree::Jobs);
    assert_eq!(tree_of(CollectionSuffix::Wait), Tree::Main);
}

#[test]
fn locks_are_kept_beside_the_database() {
    let mut store = RocksDbStore::new(Some("KIO"), "Videos");
    assert_eq!(store.prefix, "kio");
    assert_eq!(store.name, "videos");
    let token = JobToken(1, 2, 3);
    store.set_lock_at(CollectionSuffix::Lock(4), Some(token), 100, 0);
    assert_eq!(store.get_token_at(4, 50_000_000), Some(token));
    assert!(store.lock_exists_at(CollectionSuffix::Lock(4), 50_000_000));
    assert_eq!(store.get_token_at(4, 200_000_000), None);
    store.set_lock(CollectionSuffix::Lock(5), Some(token), 60_000);
    assert_eq!(store.get_token(5), Some(token));
    store.remove_lock(CollectionSuffix::Lock(5));
    assert_eq!(store.get_token(5), None);
}

fn plain(job: &str) -> (String, Option<JobOptions>, i32) {
    (job.to_string(), None, 1)
}

#[test]
fn bulk_gets_consecutive_ids() {
    let store = RocksDbStore::new(None, "videos");
    let mut batch = Batch::new();
    let mut counters = Counters { id: 4, priority: 7 };
    let urgent = JobOptions {
        priority: 3,
        ..JobOptions::default()
    };
    let items = vec![plain("a"), ("b".to_string(), Some(urgent), 2), plain("c")];
    let (added, result) =
        store.add_bulk::<i32, i32, i32>(&mut batch, &mut counters, items, &QueueOpts::default(), false);
    assert!(result.is_ok());
    let ids: Vec<Option<u64>> = added.iter().map(|(job, _)| job.id).collect();
    assert_eq!(ids, vec![Some(5), Some(6), Some(7)]);
    assert_eq!(added[1].1.job_id, 6);
    assert_eq!(added[1].0.state, JobState::Prioritized);
    assert_eq!(added[2].0.queue_name.as_deref(), Some("kio:videos"));
    assert_eq!(counters, Counters { id: 7, priority: 8 });
    let submission = batch.submit_changes(false, list(&[2]), None, None).unwrap();
    assert_eq!(
        get_job_ids_in_state(JobState::Wait, Some(submission.list), None, None),
        vec![7, 5, 2]
    );
    assert_eq!(
        get_job_ids_in_state(JobState::Prioritized, Some(submission.prioritized), None, None),
        vec![6]
    );
}

#[test]
fn bulk_ends_at_the_refused_job() {
    let store = RocksDbStore::new(None, "videos");
    let mut batch = Batch::new();
    let mut counters = Counters { id: 0, priority: 0 };
    let soon = JobOptions {
        delay: 5.into(),
        ..JobOptions::default()
    };
    let items = vec![plain("a"), ("b".to_string(), Some(soon), 2), plain("c")];
    let (added, result) =
        store.add_bulk::<i32, i32, i32>(&mut batch, &mut counters, items, &QueueOpts::default(), true);
    assert_eq!(added.len(), 1);
    assert_eq!(added[0].1.event, JobState::Paused);
    assert!(matches!(
        result,
        Err(KioError::QueueError(QueueError::DelayBelowAllowedLimit { current_ms: 5, .. }))
    ));
    assert_eq!(counters, Counters { id: 2, priority: 0 });
    let mut last = Counters {
        id: u64::MAX,
        priority: 0,
    };
    let (none, result) = store.add_bulk::<i32, i32, i32>(
        &mut batch,
        &mut last,
        vec![plain("a")],
        &QueueOpts::default(),
        false,
    );
    assert!(none.is_empty());
    assert!(matches!(result, Err(KioError::GeneralError(_))));
    assert_eq!(last.id, u64::MAX);
}

#[test]
fn counters_are_added_to_where_they_are_kept() {
    let job: Job<i32, i32, i32> = Job::new("a", Some(1), Some(7), None);
    let key = CollectionSuffix::Job(7);
    match incr(key, 2, Some("attempts_made"), Some(job.clone()), None, None) {
        Some((2, CounterWrite::Record(7, written))) => {
            assert_eq!(written.attempts_made, 2);
            let value = get_counter(key, Some("Attempts_Made"), Some(&written), None, None);
            assert_eq!(value, Some(2));
        }
        _ => panic!("the record is written"),
    }
    match incr(key, 2, Some("other"), Some(job), None, None) {
        Some((0, CounterWrite::Record(7, written))) => assert_eq!(written.attempts_made, 0),
        _ => panic!("the record is written"),
    }
    let meta = Some(Meta {
        processing: 1,
        paused: true,
    });
    match incr::<i32, i32, i32>(CollectionSuffix::Meta, -4, Some("processing"), None, meta, None) {
        Some((0, CounterWrite::Metadata(written))) => {
            assert_eq!(written.processing, 0);
            assert!(written.paused);
        }
        _ => panic!("the metadata are written"),
    }
    let stored = Some(number_bytes(4));
    match incr::<i32, i32, i32>(CollectionSuffix::Id, 2, None, None, None, stored) {
        Some((6, CounterWrite::Stored(written))) => {
            let id = CollectionSuffix::Id;
            let value = get_counter::<i32, i32, i32>(id, None, None, None, Some(written));
            assert_eq!(value, Some(6));
        }
        _ => panic!("the counter is written"),
    }
    assert!(incr::<i32, i32, i32>(CollectionSuffix::Id, -1, None, None, None, None).is_none());
    let id = CollectionSuffix::Id;
    assert_eq!(get_counter::<i32, i32, i32>(id, None, None, None, None), None);
    assert_eq!(get_counter::<i32, i32, i32>(id, Some("x"), None, meta, None), Some(1));
}

#[test]
fn presence_is_looked_up_by_collection() {
    let mut store = RocksDbStore::new(None, "videos");
    let lock = CollectionSuffix::Lock(4);
    store.set_lock_at(lock, Some(JobToken(1, 2, 3)), 100, 0);
    assert!(store.exists_in_at(lock, None, 0, 99_000_000));
    assert!(!store.exists_in_at(lock, None, 0, 100_000_000));
    assert!(store.exists_in_at(CollectionSuffix::Job(1), Some(Vec::new()), 0, 0));
    assert!(!store.exists_in_at(CollectionSuffix::Job(1), None, 0, 0));
    assert!(store.exists_in_at(CollectionSuffix::Wait, list(&[1, 2]), 2, 0));
    assert!(!store.exists_in_at(CollectionSuffix::Wait, list(&[1, 2]), 3, 0));
    assert_eq!(collection_of(JobState::Stalled), CollectionSuffix::Stalled);
    assert_eq!(collection_of(JobState::Delayed), CollectionSuffix::Delayed);
}

#[test]
fn cleared_collections_are_those_of_a_new_queue() {
    let mut store = RocksDbStore::new(None, "videos");
    let lock = CollectionSuffix::Lock(4);
    store.set_lock_at(lock, Some(JobToken(1, 2, 3)), 100, 0);
    let changes = store.clear_collections().unwrap();
    assert!(!store.exists_in_at(lock, None, 0, 1));
    let initial = initial_collections().unwrap();
    assert_eq!(changes.len(), initial.len() + 2);
    for (change, (col, bytes)) in changes.iter().zip(initial) {
        assert_eq!(change.0, col);
        assert!(matches!(&change.1, Change::Put(put) if *put == bytes));
    }
    assert_eq!(changes[9].0, CollectionSuffix::Paused);
    assert!(matches!(changes[9].1, Change::Delete));
    assert_eq!(changes[10].0, CollectionSuffix::Meta);
    assert!(matches!(changes[10].1, Change::Delete));
}
