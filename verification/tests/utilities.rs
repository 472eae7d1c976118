use hdrhistogram::serialization::{Serializer, V2Serializer};
use hdrhistogram::Histogram;
use kiomq::error::KioError;
use kiomq::events::stream::{EventField, EventValue, QueueStreamEvent, StreamEventId};
use kiomq::job::{CronSchedule, Job, JobDelay, JobState, JobToken};
use kiomq::metrics::process_tree_tracker::{sample_tree_metrics, ProcessStat};
use kiomq::metrics::worker_metrics::{
    collect_task_at, poll_sample, HistogramOrder, HistogramWrapper, TaskInfo, TaskStats,
    WorkerMetrics,
};
use kiomq::time::{Dt, TimeSpan};
use kiomq::utils::id_set::IdSet;
use kiomq::utils::slot_map::SlotMap;
use kiomq::utils::sorted_set::SortedSet;
use kiomq::utils::text::{decimal, signed};
use kiomq::utils::ConcurrentDeque;

fn at(millis: i64) -> Dt {
    Dt::from_timestamp_micros(millis * 1_000).unwrap()
}

fn histogram(values: &[u64]) -> HistogramWrapper {
    let mut histogram: Histogram<u64> = Histogram::new_with_max(100_000_000_000, 2).unwrap();
    for value in values {
        histogram.record(*value).unwrap();
    }
    let mut bytes = Vec::new();
    V2Serializer::new().serialize(&histogram, &mut bytes).unwrap();
    HistogramWrapper { bytes }
}

fn stats(polls: u64) -> TaskStats {
    TaskStats {
        total_poll_count: polls,
        total_slow_poll_count: 0,
        total_poll_duration: TimeSpan {
            secs: 0,
            nanos: 600,
        },
        total_idle_duration: TimeSpan { secs: 0, nanos: 0 },
        total_scheduled_duration: TimeSpan { secs: 0, nanos: 0 },
    }
}

fn process(ppid: i32, ticks: u64, rss: u64) -> ProcessStat {
    ProcessStat {
        ppid,
        utime: ticks,
        stime: 0,
        cutime: 0,
        cstime: 0,
        rss,
        vsize: 100,
    }
}

#[test]
fn deque_takes_from_both_ends() {
    let mut deque = ConcurrentDeque::new();
    deque.push_front(1);
    deque.push_front(2);
    deque.push_back(3);
    assert_eq!(deque.len(), 3);
    let values: Vec<u64> = deque.iter().into_iter().map(|entry| entry.1).collect();
    assert_eq!(values, vec![2, 1, 3]);
    assert!(deque.contains_value(1));
    deque.remove_value(1);
    assert_eq!(deque.page(0, None), vec![2, 3]);
    assert_eq!(deque.pop_back(), Some(3));
    assert_eq!(deque.pop_front(), Some(2));
    assert_eq!(deque.pop_front(), None);
    assert!(deque.is_empty());
    assert!(deque.front_room() > 0);
    assert!(deque.back_room() > 0);
}

#[test]
fn sorted_set_goes_by_score() {
    let mut set = SortedSet::new();
    set.insert(30, 3);
    set.insert(10, 1);
    set.insert(20, 2);
    assert_eq!(set.entries(), vec![(10, 1), (20, 2), (30, 3)]);
    assert_eq!(set.page(1, Some(2)), vec![2, 3]);
    assert_eq!(set.take_between(15, 25), vec![2]);
    assert_eq!(set.pop(false), Some((30, 3)));
    assert_eq!(set.pop(true), Some((10, 1)));
    assert_eq!(set.pop(true), None);
    let mut set = SortedSet::new();
    set.extend(&vec![(5, 50), (1, 10)]);
    assert!(set.contains_id(50));
    assert_eq!(set.count(), 2);
    set.clear();
    assert_eq!(set.count(), 0);
}

#[test]
fn score_holds_many_ids() {
    let mut set = SortedSet::new();
    set.insert(10, 2);
    set.insert(10, 1);
    set.insert(10, 2);
    set.insert(-1, 7);
    set.insert(u64::MAX as i128, 8);
    assert_eq!(set.entries(), vec![(-1, 7), (10, 1), (10, 2), (u64::MAX as i128, 8)]);
    set.remove_id(1);
    assert_eq!(set.page(0, None), vec![7, 2, 8]);
    assert_eq!(set.page(1, Some(3)), Vec::<u64>::new());
    assert_eq!(set.take_between(-5, 10), vec![7, 2]);
    assert_eq!(set.pop(true), Some((u64::MAX as i128, 8)));
}

#[test]
fn id_set_holds_an_id_once() {
    let mut set = IdSet::from_ids(&vec![3, 1, 3]);
    assert_eq!(set.ids(), vec![1, 3]);
    set.insert(2);
    assert_eq!(set.count(), 3);
    assert_eq!(set.page(1, Some(2)), vec![2, 3]);
    set.remove(2);
    assert!(!set.contains(2));
    set.clear();
    assert_eq!(set.count(), 0);
}

#[test]
fn slot_map_reuses_slots() {
    let mut map: SlotMap<&str> = SlotMap::new();
    map.insert(7, "seven");
    map.insert(3, "three");
    assert_eq!(map.remove(7), Some("seven"));
    map.insert(9, "nine");
    assert_eq!(map.keys(), vec![3, 9]);
    assert_eq!(map.get(9), Some(&"nine"));
    assert!(!map.contains_key(7));
    map.clear();
    assert!(map.is_empty());
}

#[test]
fn numbers_are_written_in_decimal() {
    assert_eq!(decimal(0), "0");
    assert_eq!(decimal(u64::MAX), "18446744073709551615");
    assert_eq!(signed(-12), "-12");
    assert_eq!(signed(i64::MIN), "-9223372036854775808");
}

#[test]
fn points_in_time() {
    let point = at(1_500);
    assert_eq!(point.timestamp_millis(), 1_500);
    assert_eq!(point.add_millis(250).timestamp_millis(), 1_750);
    assert_eq!(point.millis_since(&at(1_000)), 500);
    assert_eq!(point.span_since(&at(1_000)), TimeSpan { secs: 0, nanos: 500_000_000 });
    assert!(point.checked_add_millis(i64::MAX).is_none());
    let now = Dt::now();
    assert!(now.timestamp_millis() > 1_600_000_000_000);
    assert_eq!(Dt::from_seconds_and_nanos(1, 500_000_000), point);
    let (secs, nanos) = now.seconds_and_nanos();
    assert_eq!(Dt::from_seconds_and_nanos(secs, nanos), now);
    assert_eq!(Dt::from_seconds_and_nanos(-1, 0), at(-1_000));
}

#[test]
fn delays_lead_to_a_time() {
    assert_eq!(JobDelay::from(200).next_occurrance_timestamp_ms_at(&at(1_000)), Some(1_200));
    let minutely = JobDelay::try_from("* * * * *").unwrap();
    assert_eq!(minutely.next_occurrance_timestamp_ms_at(&at(1_000)), Some(60_000));
    assert_eq!(minutely.checked_diff_ms(&at(1_000)), Some(59_000));
    assert!(JobDelay::try_from("every day").is_err());
    let schedule = CronSchedule::parse("0 0 * * *").unwrap();
    assert_eq!(schedule.next_after(&at(0)), Some(at(86_400_000)));
    assert!(!CronSchedule::parse("61 * * * *").unwrap_err().message.is_empty());
}

#[test]
fn job_statistics() {
    let mut job: Job<i32, i32, i32> = Job::new_at("clip", None, Some(4), Some("kio:videos"), at(0));
    assert!(job.get_metrics().is_none());
    job.processed_on = Some(at(100));
    job.finished_on = Some(at(350));
    let metrics = job.get_metrics().unwrap();
    assert_eq!(metrics.ran_for, TimeSpan { secs: 0, nanos: 250_000_000 });
    assert_eq!(metrics.id, 4);
}

#[test]
fn tokens_are_written_out() {
    assert_eq!(
        JobToken(1, 2, 3).text(),
        "00000000-0000-0000-0000-000000000001-00000000-0000-0000-0000-000000000002-3"
    );
    let a = JobToken::default();
    let b = JobToken::default();
    assert_ne!(a, b);
    assert_eq!(a.2, 0);
}

#[test]
fn different_identifiers_have_different_texts() {
    let bits = 0x0123_4567_89ab_cdef_0011_2233_4455_6677;
    assert_eq!(
        JobToken(bits, bits + 1, 0).text(),
        "01234567-89ab-cdef-0011-223344556677-01234567-89ab-cdef-0011-223344556678-0"
    );
}

#[test]
fn states_have_names() {
    assert_eq!(JobState::Wait.name(), "Wait");
    assert_eq!(JobState::Prioritized.lower_name(), "prioritized");
    assert_eq!(JobState::from_name("COMPLETED"), Some(JobState::Completed));
    assert_eq!(JobState::from_lowercase("failed"), Some(JobState::Failed));
    assert_eq!(JobState::from_name("unknown"), None);
}

#[test]
fn stream_ids_are_parsed() {
    let id = StreamEventId::parse("1700000000123-4").unwrap();
    assert_eq!(id.0.timestamp_millis(), 1_700_000_000_123);
    assert_eq!(id.1, 4);
    assert!(StreamEventId::parse("1700000000123").is_err());
    assert!(matches!(
        StreamEventId::parse("x-4"),
        Err(KioError::ParseIntError(_))
    ));
}

#[test]
fn decimal_is_read_back() {
    for number in [0, 9, 10, 1_234_567_890, u64::MAX] {
        let id = StreamEventId::parse(&format!("0-{}", decimal(number))).unwrap();
        assert_eq!(id.1, number);
    }
}

#[test]
fn stream_id_is_at_its_time() {
    let id = StreamEventId::from_timestamp_millis(1_500);
    assert_eq!(id, StreamEventId(at(1_500), 0));
    let beyond = StreamEventId::from_timestamp_millis_at(i64::MAX, at(7));
    assert_eq!(beyond, StreamEventId(at(7), 0));
}

#[test]
fn delay_becomes_a_point_in_time() {
    let delay: JobDelay = 500.into();
    assert_eq!(delay.next_occurrance_timestamp_ms_at(&at(100)), Some(600));
    let before = Dt::now().timestamp_millis();
    let next = delay.next_occurrance_timestamp_ms().unwrap();
    assert!(next >= before + 500);
    let none: JobDelay = 0.into();
    assert_eq!(none.next_occurrance_timestamp_ms(), None);
}

#[test]
fn events_are_assembled() {
    assert_eq!(EventField::from_key("JobId"), EventField::from_lowercase("jobid"));
    assert!(EventField::from_key("nothing").is_none());
    let event: QueueStreamEvent<i32, i32> = QueueStreamEvent::assemble(
        StreamEventId(at(5), 1),
        vec![
            EventValue::JobId(4),
            EventValue::Event(JobState::Active),
            EventValue::Prev(Some(JobState::Wait)),
        ],
    );
    assert_eq!(event.job_id, 4);
    assert_eq!(event.event, JobState::Active);
    assert_eq!(event.prev, Some(JobState::Wait));
    let reply = vec![
        ("other".to_string(), vec![Ok(QueueStreamEvent::<i32, i32>::default())]),
        ("events".to_string(), vec![Ok(event), Err(KioError::GeneralError("no".to_string()))]),
    ];
    let read = QueueStreamEvent::from_stream_read_reply("events", reply);
    assert_eq!(read.len(), 1);
    assert_eq!(read[0].job_id, 4);
}

#[test]
fn histograms_are_ranked() {
    let one = histogram(&[5]);
    let two = histogram(&[5, 6]);
    assert_eq!(one.compare(&two), HistogramOrder::Less);
    assert_eq!(two.compare(&one), HistogramOrder::Greater);
    assert_eq!(two.compare(&histogram(&[5, 6])), HistogramOrder::Equal);
    assert_eq!(one.compare(&histogram(&[9])), HistogramOrder::Less);
    assert!(one.same(&histogram(&[5])));
    assert!(!one.same(&two));
}

#[test]
fn worker_metrics_are_kept_current() {
    let mut info = TaskInfo::new_at(1, 2, stats(3), histogram(&[1]), at(0));
    info.update_at(stats(4), at(9));
    assert_eq!(info.metrics.total_poll_count, 4);
    assert_eq!(info.last_updated, at(9));
    let metrics = WorkerMetrics::new_at(1, 1, vec![info], 500, at(0));
    assert_eq!(metrics.restate_at(at(7)).last_updated, at(7));
    assert_eq!(poll_sample(&stats(0)), None);
    assert_eq!(poll_sample(&stats(3)), Some(200));
}

#[test]
fn process_tree_is_summed() {
    let own = process(1, 10, 3);
    let all = vec![process(50, 7, 2), process(9, 5, 1)];
    let sample = sample_tree_metrics(Some(own), &all, 50, 4_096).unwrap();
    assert_eq!(sample.ticks, vec![10, 7]);
    assert_eq!(sample.rss_bytes, 5 * 4_096);
    assert_eq!(sample.virt_bytes, 200);
}

#[test]
fn poll_times_are_recorded() {
    let mut made = HistogramWrapper::new().unwrap();
    assert!(made.same(&histogram(&[])));
    assert_eq!(made.len(), Some(0));
    assert_eq!(made.max(), Some(0));
    assert!(made.record(5));
    assert!(made.record(70));
    assert_eq!(made.len(), Some(2));
    assert_eq!(made.max(), Some(70));
    assert!(made.same(&histogram(&[5, 70])));
    assert!(!made.record(u64::MAX));
    assert!(made.same(&histogram(&[5, 70])));
}

#[test]
fn a_snapshot_records_the_mean_poll_time() {
    let mut polls = HistogramWrapper::new().unwrap();
    let mut seen = stats(4);
    seen.total_poll_duration = TimeSpan { secs: 0, nanos: 40 };
    let info = collect_task_at(7, 9, seen, &mut polls, at(3));
    assert_eq!((info.task_id, info.job_id, info.last_updated), (7, 9, at(3)));
    assert!(info.poll_histogram.same(&histogram(&[10])));
    assert!(polls.same(&histogram(&[10])));
    seen.total_poll_count = 0;
    let idle = collect_task_at(7, 9, seen, &mut polls, at(4));
    assert_eq!(idle.poll_histogram.len(), Some(1));
}

#[test]
fn bytes_that_are_no_histogram_rank_first() {
    let mut broken = HistogramWrapper { bytes: vec![1, 2, 3] };
    assert_eq!(broken.len(), None);
    assert_eq!(broken.max(), None);
    assert!(!broken.record(5));
    assert_eq!(broken.bytes, vec![1, 2, 3]);
    assert_eq!(broken.compare(&histogram(&[])), HistogramOrder::Less);
    let mut ones = histogram(&[5]);
    ones.bytes.truncate(40);
    ones.bytes[7] = 9;
    ones.bytes.extend_from_slice(&[0xff; 9]);
    assert_eq!(ones.len(), None);
}
