use kiomq::error::{CaughtError, CaughtPanicInfo, WorkerError};
use kiomq::job::{Job, JobOptions, JobState, RemoveOnCompletionOrFailure, Repeat};
use kiomq::metrics::process_metrics::{ProcessMetricsCollector, WorkerMeta};
use kiomq::metrics::worker_metrics::{HistogramWrapper, TaskInfo, TaskStats};
use kiomq::queue::{ProcessedResult, QueueEventMode, QueueMetrics, RetryOptions};
use kiomq::time::{Dt, TimeSpan};
use kiomq::timers::delay_queue_timer::{
    group_metrics, group_tasks, process_timer, register_worker_timers, JobEntry, TimerType,
    TimerWork, WorkerEntry,
};
use kiomq::utils::processing::{
    fail_missed, get_next_job, promote_jobs, promotes_jobs, promotion_timers, throttled, JobRun,
    NextJob,
};
use kiomq::utils::scheduling::{
    calculate_next_priority_score, pause_or_resume_workers, priority_score_fits, resume_helper,
};
use kiomq::worker::{FetchedJob, LoopAction, LoopEvent, Worker, WorkerOpts, WorkerState};

fn at(millis: i64) -> Dt {
    Dt::from_timestamp_micros(millis * 1_000).unwrap()
}

fn waiting(waiting: u64, active: u64, delayed: u64) -> QueueMetrics {
    QueueMetrics::new(
        9,
        0,
        active,
        0,
        0,
        delayed,
        0,
        0,
        0,
        waiting,
        false,
        QueueEventMode::PubSub,
    )
}

fn task(task_id: u64) -> TaskInfo {
    let none = TimeSpan { secs: 0, nanos: 0 };
    let stats = TaskStats {
        total_poll_count: 1,
        total_slow_poll_count: 0,
        total_poll_duration: none,
        total_idle_duration: none,
        total_scheduled_duration: none,
    };
    TaskInfo::new_at(task_id, 1, stats, HistogramWrapper { bytes: Vec::new() }, at(0))
}

fn running_job() -> Job<i32, i32, i32> {
    let mut job = Job::new_at("clip", Some(1), Some(4), None, at(1_000));
    job.processed_on = Some(at(1_500));
    job
}

#[test]
fn errors_with_multiple_run_calls() {
    let mut worker = Worker::with_id(8, at(0), WorkerOpts::with_concurrency(2));
    assert!(worker.run().is_ok());
    assert_eq!(worker.run(), Err(WorkerError::WorkerAlreadyRunningWithId(8)));
    assert!(worker.is_running());
}

#[test]
fn closed_worker_stays_closed() {
    let mut worker = Worker::with_id(8, at(0), WorkerOpts::with_concurrency(2));
    assert!(!worker.close());
    assert!(worker.run().is_ok());
    assert!(worker.close());
    assert!(!worker.is_running());
    assert!(worker.closed());
    assert!(!worker.close());
    assert_eq!(worker.run(), Err(WorkerError::WorkerAlreadyClosed(8)));
}

#[test]
fn sleeping_worker_is_in_service() {
    let mut worker = Worker::with_id(8, at(0), WorkerOpts::with_concurrency(2));
    assert!(!worker.is_idle());
    assert!(worker.run().is_ok());
    let paused = LoopEvent::Round {
        cancelled: false,
        paused: true,
        permits: 2,
        processing: 0,
    };
    assert_eq!(worker.main_loop(paused), LoopAction::AwaitWake);
    assert!(worker.is_idle());
    assert!(!worker.is_running());
    assert_eq!(worker.run(), Err(WorkerError::WorkerAlreadyRunningWithId(8)));
    assert!(worker.close());
    assert!(worker.closed());
    assert_eq!(worker.run(), Err(WorkerError::WorkerAlreadyClosed(8)));
}

#[test]
fn standard_options() {
    let worker = Worker::new(None);
    assert!(worker.opts.concurrency >= 1);
    assert_eq!(worker.is_running(), worker.opts.autorun);
    let other = Worker::new(Some(WorkerOpts {
        autorun: true,
        ..WorkerOpts::with_concurrency(3)
    }));
    assert!(other.is_running());
    assert_ne!(worker.id, other.id);
    let opts = WorkerOpts {
        lock_duration: 30_000,
        lock_renew_time: 12_000,
        ..WorkerOpts::with_concurrency(1)
    };
    assert_eq!(opts.lock_renew_interval(), 18_000);
}

#[test]
fn main_loop_goes_round() {
    let mut worker = Worker::with_id(8, at(0), WorkerOpts::with_concurrency(2));
    let _ = worker.run();
    let round = LoopEvent::Round {
        cancelled: false,
        paused: false,
        permits: 2,
        processing: 0,
    };
    assert_eq!(worker.main_loop(round), LoopAction::AcquirePermit);
    assert_eq!(worker.main_loop(LoopEvent::Permit(true)), LoopAction::Fetch);
    assert_eq!(
        worker.main_loop(LoopEvent::Fetched(FetchedJob::WithId(5))),
        LoopAction::Start(5)
    );
    assert_eq!(
        worker.main_loop(LoopEvent::Fetched(FetchedJob::Nothing)),
        LoopAction::Sleep(50)
    );
    let full = LoopEvent::Round {
        cancelled: false,
        paused: false,
        permits: 1,
        processing: 2,
    };
    assert_eq!(worker.main_loop(full), LoopAction::Yield);
    let paused = LoopEvent::Round {
        cancelled: false,
        paused: true,
        permits: 2,
        processing: 0,
    };
    assert_eq!(worker.main_loop(paused), LoopAction::AwaitWake);
    assert!(worker.is_idle());
    let woken = LoopEvent::Woken {
        cancelled: false,
        permits: 2,
        processing: 0,
    };
    assert_eq!(worker.main_loop(woken), LoopAction::AcquirePermit);
    assert!(!worker.is_idle());
    let cancelled = LoopEvent::Round {
        cancelled: true,
        paused: false,
        permits: 2,
        processing: 0,
    };
    assert_eq!(worker.main_loop(cancelled), LoopAction::Leave);
    assert_eq!(
        worker.main_loop(LoopEvent::Ended { cancelled: true }),
        LoopAction::Drain
    );
    assert_eq!(worker.state, WorkerState::Active);
    assert_eq!(worker.main_loop(LoopEvent::Drained), LoopAction::Done);
    assert_eq!(worker.state, WorkerState::Closed);
    assert_eq!(worker.next_token(3).2, 3);
}

#[test]
fn run_that_succeeds_is_settled() {
    let job = running_job();
    let mut run = JobRun::start(&job);
    let request = run.returned(Ok::<i32, CaughtError>(42), &at(2_000));
    assert_eq!(request.job_id, 4);
    assert_eq!(request.ts, 2_000_000);
    assert_eq!(request.state, JobState::Completed);
    match request.outcome {
        ProcessedResult::Success(value, metrics) => {
            assert_eq!(value, 42);
            assert_eq!(metrics.id, 4);
            assert_eq!(metrics.attempt, 1);
            assert_eq!(metrics.ran_for, TimeSpan { secs: 0, nanos: 500_000_000 });
        }
        ProcessedResult::Failed(_) => panic!("the run succeeded"),
    }
    let opts = JobOptions {
        remove_on_complete: Some(RemoveOnCompletionOrFailure::Bool(true)),
        ..JobOptions::default()
    };
    let settlement = run.moved(1, None, Some((&opts, true)));
    assert_eq!(settlement.released, Some((4, JobState::Completed)));
    let follow_up = settlement.follow_up.unwrap();
    assert!(follow_up.retry.is_none());
    assert_eq!(
        follow_up.clean_up,
        Some(Some(RemoveOnCompletionOrFailure::Bool(true)))
    );
    let again = Repeat::Immediately(3);
    let opts = JobOptions {
        attempts: 2,
        ..JobOptions::default()
    };
    let settlement = run.moved(1, Some(&again), Some((&opts, false)));
    assert!(settlement.released.is_none());
    assert!(matches!(
        settlement.follow_up.unwrap().retry,
        Some((RetryOptions::WithRepeat(_), _))
    ));
    assert!(run.moved(1, None, None).follow_up.is_none());
}

#[test]
fn run_that_fails_is_settled() {
    let job = running_job();
    let mut run = JobRun::start(&job);
    let error = CaughtError::Panic(CaughtPanicInfo {
        payload: "failed here".to_string(),
        backtrace: Some(vec!["frame".to_string()]),
    });
    let request = run.returned(Err::<i32, CaughtError>(error), &at(2_000));
    assert_eq!(request.state, JobState::Failed);
    match request.outcome {
        ProcessedResult::Failed(details) => {
            assert_eq!(details.run, 1);
            assert!(details.reason.contains("failed here"));
        }
        ProcessedResult::Success(..) => panic!("the run failed"),
    }
    assert_eq!(request.trace.unwrap().frames, vec!["frame"]);
}

#[test]
fn missed_job_is_failed() {
    let (token, request) = fail_missed::<i32>(4, Some(2), None, &at(5));
    assert_eq!(token.2, 0);
    assert_eq!(request.state, JobState::Failed);
    match request.outcome {
        ProcessedResult::Failed(details) => {
            assert_eq!(details.run, 2);
            assert_eq!(details.reason, "Job has missed delay deadline");
        }
        ProcessedResult::Success(..) => panic!("the job was missed"),
    }
}

#[test]
fn next_job_is_asked_for() {
    assert_eq!(get_next_job(true, Some(3), &at(5)), NextJob::Nothing);
    assert_eq!(get_next_job(false, Some(3), &at(5)), NextJob::Prepare(3, 5_000));
    assert_eq!(get_next_job(false, None, &at(5)), NextJob::MoveToActive);
}

#[test]
fn delayed_jobs_are_promoted_in_windows() {
    assert_eq!(promote_jobs(&waiting(0, 0, 2), &at(1_000), 250), Some((1_000, 1_250)));
    assert_eq!(promote_jobs(&waiting(0, 0, 0), &at(1_000), 250), None);
    assert!(promotes_jobs(&waiting(0, 0, 2)));
    assert!(!promotes_jobs(&waiting(0, 0, 0)));
    assert_eq!(throttled(&waiting(1, 0, 0)), None);
    assert_eq!(
        promotion_timers(&vec![4, 6], 9),
        vec![TimerType::PromotedDelayed(4, 9), TimerType::PromotedDelayed(6, 9)]
    );
}

#[test]
fn workers_are_woken_when_there_is_work() {
    let mut paused = true;
    assert!(resume_helper(&waiting(1, 0, 0), &mut paused));
    assert!(!paused);
    assert!(!resume_helper(&waiting(1, 0, 0), &mut paused));
    let mut paused = true;
    assert!(!resume_helper(&waiting(0, 0, 0), &mut paused));
    assert!(paused);
    let mut initial = true;
    assert!(!pause_or_resume_workers(&waiting(1, 0, 0), &mut paused, &mut initial));
    assert!(paused);
    assert!(!initial);
    assert!(pause_or_resume_workers(&waiting(1, 0, 0), &mut paused, &mut initial));
    assert!(!paused);
    assert!(!pause_or_resume_workers(&waiting(0, 0, 0), &mut paused, &mut initial));
    assert!(paused);
}

#[test]
fn lower_priority_runs_first() {
    let low = calculate_next_priority_score(1, 9);
    let high = calculate_next_priority_score(2, 1);
    assert!(low < high);
    assert!(calculate_next_priority_score(2, 1) < calculate_next_priority_score(2, 2));
    assert!(priority_score_fits(1, 1));
    assert!(!priority_score_fits(u64::MAX, u64::MAX));
}

#[test]
fn timers_do_their_work() {
    let opts = WorkerOpts::with_concurrency(2);
    let workers = vec![WorkerEntry {
        id: 1,
        state: WorkerState::Active,
        opts,
    }];
    let jobs = vec![JobEntry {
        id: Some(4),
        token: kiomq::job::JobToken(1, 2, 3),
        opts,
    }];
    let timers = register_worker_timers(&opts);
    assert_eq!(timers.len(), 4);
    let (work, again) = process_timer(timers[0], &workers, &jobs);
    match work {
        TimerWork::ExtendLocks(locks) => {
            assert_eq!(locks.len(), 1);
            assert_eq!(locks[0].job_id, 4);
            assert_eq!(locks[0].lock_duration, opts.lock_duration);
        }
        _ => panic!("locks should be extended"),
    }
    assert_eq!(again, Some(timers[0]));
    let (work, again) = process_timer(timers[1], &workers, &jobs);
    assert!(matches!(work, TimerWork::CheckStalled(Some(_))));
    assert_eq!(again, Some(timers[1]));
    let (work, again) = process_timer(timers[2], &workers, &jobs);
    match work {
        TimerWork::Collect(positions) => assert_eq!(positions, vec![0]),
        _ => panic!("metrics should be collected"),
    }
    assert_eq!(again, Some(timers[2]));
    let (work, again) = process_timer(TimerType::PromotedDelayed(7, 9), &workers, &jobs);
    assert!(matches!(work, TimerWork::Promote(7)));
    assert!(again.is_none());
    let (work, _) = process_timer(TimerType::ReregisterWorker, &workers, &jobs);
    match work {
        TimerWork::Heartbeat(ids) => assert_eq!(ids, vec![1]),
        _ => panic!("a heartbeat was expected"),
    }
}

#[test]
fn tasks_are_grouped_by_worker() {
    let opts = WorkerOpts::with_concurrency(2);
    let tasks = vec![
        (1, task(10), opts),
        (2, task(20), opts),
        (1, task(11), opts),
    ];
    let groups = group_tasks(tasks);
    assert_eq!(groups.len(), 2);
    let total: usize = groups.iter().map(|group| group.tasks.len()).sum();
    assert_eq!(total, 3);
    for group in groups {
        let id = group.worker_id;
        let len = group.tasks.len();
        let metrics = group_metrics(group, at(7));
        assert_eq!(metrics.worker_id, id);
        assert_eq!(metrics.active_len, len);
        assert_eq!(metrics.last_updated, at(7));
    }
}

#[test]
fn collector_tells_a_waiting_queue_once() {
    let mut collector: ProcessMetricsCollector<u8, u8> = ProcessMetricsCollector::new();
    let timer = TimerType::ReregisterWorker;
    collector.register_queue(5, 50);
    assert_eq!(collector.queue(5), Some(&50));
    collector.await_timer(5, &timer);
    assert!(collector.timer_exists(&timer, 5));
    assert_eq!(collector.timer_fired(&timer), vec![5]);
    assert!(collector.timer_fired(&timer).is_empty());
    collector.await_timer(5, &timer);
    collector.unregister_queue(5);
    assert!(collector.timer_fired(&timer).is_empty());
    collector.register_worker_at(1, 10, 0);
    assert_eq!(collector.worker(1), Some(&10));
    assert_eq!(collector.live_workers_at(1_000), vec![1]);
    assert!(collector.live_workers_at(200_000_000_000).is_empty());
    let meta = WorkerMeta::new_at(1, at(0), WorkerState::Idle, WorkerOpts::with_concurrency(1), 2, at(9));
    assert_eq!(meta.last_updated, at(9));
    assert_eq!(meta.processing, 2);
}
