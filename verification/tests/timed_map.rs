use kiomq::time::TimeSpan;
use kiomq::timers::concurrent_timed_map::nanos_of;
use kiomq::timers::TimedMap;
use std::sync::{Arc, Mutex};
use std::time::Duration;

fn millis(ms: u32) -> TimeSpan {
    TimeSpan {
        secs: 0,
        nanos: ms * 1_000_000,
    }
}

const MS: u128 = 1_000_000;

#[test]
fn test_purge_removes_expired_async() {
    let runtime = tokio::runtime::Runtime::new().unwrap();
    runtime.block_on(async {
        let mut map: TimedMap<u64> = TimedMap::new();
        map.insert_expirable(1, 100, millis(50));
        tokio::time::sleep(Duration::from_millis(80)).await;
        map.purge_expired();
        assert!(map.peek(1).is_none());
        assert!(!map.contains_key(1));
    });
}

#[test]
fn test_concurrent_inserts_and_purge_async() {
    let runtime = tokio::runtime::Runtime::new().unwrap();
    runtime.block_on(async {
        let map: Arc<Mutex<TimedMap<u64>>> = Arc::new(Mutex::new(TimedMap::new()));
        let mut handles = Vec::new();
        for i in 0..50u64 {
            let m = Arc::clone(&map);
            handles.push(tokio::spawn(async move {
                for j in 0..10u64 {
                    let k = i * 100 + j;
                    m.lock().unwrap().insert_expirable(u128::from(k), k, millis(30));
                }
            }));
        }
        for h in handles {
            let _ = h.await;
        }
        assert_eq!(map.lock().unwrap().len_expired(), 500);
        tokio::time::sleep(Duration::from_millis(60)).await;
        map.lock().unwrap().purge_expired();
        assert_eq!(map.lock().unwrap().len_expired(), 0);
    });
}

#[test]
fn entry_lives_until_its_deadline() {
    let mut map: TimedMap<u64> = TimedMap::new();
    map.insert_expirable_at(1, 100, millis(50), 10 * MS);
    assert_eq!(map.get_at(1, 59 * MS), Some(&100));
    assert!(map.contains_key_at(1, 59 * MS));
    assert_eq!(map.get_at(1, 60 * MS + 1), None);
    assert!(!map.contains_key_at(1, 60 * MS + 1));
}

#[test]
fn constant_entry_never_expires() {
    let mut map: TimedMap<u64> = TimedMap::new();
    map.insert_constant(7, 9);
    assert_eq!(map.get_at(7, u128::MAX), Some(&9));
    map.purge_expired_at(u128::MAX);
    assert_eq!(map.peek(7), Some(&9));
    assert_eq!(map.len_expired(), 0);
}

#[test]
fn nothing_expires_while_expiration_is_off() {
    let mut map: TimedMap<u64> = TimedMap::new();
    assert!(map.expires_entries());
    map.insert_expirable_at(1, 100, millis(50), 0);
    map.toggle_expiration();
    assert!(!map.expires_entries());
    map.insert_expirable_at(2, 200, millis(50), 0);
    map.purge_expired_at(1_000 * MS);
    assert_eq!(map.get_at(1, 1_000 * MS), Some(&100));
    map.toggle_expiration();
    assert_eq!(map.get_at(1, 1_000 * MS), None);
    assert_eq!(map.get_at(2, 1_000 * MS), Some(&200));
}

#[test]
fn purge_keeps_what_lives() {
    let mut map: TimedMap<u64> = TimedMap::new();
    map.insert_expirable_at(1, 10, millis(50), 0);
    map.insert_expirable_at(2, 20, millis(500), 0);
    map.insert_constant(3, 30);
    map.purge_expired_at(100 * MS);
    assert_eq!(map.all_keys(), vec![2, 3]);
    assert_eq!(map.iter_at(100 * MS), vec![2, 3]);
    map.remove(2);
    map.remove(3);
    assert!(map.is_empty());
}

#[test]
fn deadline_is_moved_and_values_replaced() {
    let mut map: TimedMap<u64> = TimedMap::new();
    map.insert_constant(1, 10);
    assert_eq!(map.replace(1, 11), Ok(10));
    assert_eq!(map.replace(2, 12), Err(12));
    map.insert_expirable_at(3, 30, millis(50), 0);
    assert!(map.update_expiration_status_at(3, millis(500), 0).is_some());
    assert_eq!(map.get_at(3, 400 * MS), Some(&30));
    assert_eq!(map.take_at(1, 0), Some((11, None)));
    assert!(!map.contains_key_at(1, 0));
    map.put(4, 40, Some(5));
    assert_eq!(map.get_at(4, 100), None);
    map.clear();
    assert!(map.is_empty());
}

#[test]
fn deadline_is_counted_from_now() {
    let mut map: TimedMap<u64> = TimedMap::new();
    map.insert_constant(1, 100);
    assert_eq!(map.update_expiration_status(2, millis(50)), None);
    let before = map.now();
    let deadline = map.update_expiration_status(1, millis(50)).unwrap();
    assert!(deadline >= before + 50 * MS);
    assert_eq!(map.get_at(1, deadline - 1), Some(&100));
    assert_eq!(map.get_at(1, deadline), None);
}

#[test]
fn time_of_a_map_goes_on_from_its_making() {
    let map: TimedMap<u64> = TimedMap::new();
    let first = map.now();
    assert!(first < 10_000 * MS);
    assert!(map.now() >= first);
    assert_eq!(nanos_of(TimeSpan { secs: 2, nanos: 7 }), 2_000_000_007);
}
