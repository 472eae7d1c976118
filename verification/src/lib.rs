//! A job queue: jobs with priorities, delays, retries and schedules; stores in
//! memory, in a Redis server and in a RocksDB database; workers, timers, events
//! and metrics.
//!
//! Every rule of the queue is stated as a contract and proved. What reads and
//! writes, waits and spawns is left to the program around the library.
pub mod error;
pub mod events;
pub mod job;
pub mod metrics;
pub mod outside;
pub mod queue;
pub mod stores;
pub mod time;
pub mod timers;
pub mod utils;
pub mod worker;

pub use error::{
    BacktraceCatcher, CaughtError, CaughtPanicInfo, JobError, KioError, KioResult, QueueError,
    WorkerError,
};
pub use events::EventParameters;
pub use job::{
    BackOff, BackOffJobOptions, BackOffOptions, CronError, CronSchedule, FailedDetails, Job,
    JobDelay, JobMetrics, JobOptions, JobState, JobToken, KeepJobs, RemoveOnCompletionOrFailure,
    Repeat, StoredFn, Strategy, Trace,
};
pub use metrics::{
    HistogramWrapper, RawRuntimeMetrics, TaskInfo, TaskStats, WorkerMeta, WorkerMetrics,
    PROCESS_METRIC_UPDATE_INTERVAL, WORKER_STATE_TTL,
};
pub use queue::{
    CollectionSuffix, JobField, ProcessedResult, QueueEventMode, QueueMetrics, QueueOpts,
    RetryOptions,
};
pub use stores::{ivec_to_number, InMemoryStore, RedisStore, RedisVersion, RocksDbStore};
pub use time::{Dt, TimeSpan};
pub use timers::{TimedMap, Timer};
pub use worker::{Worker, WorkerOpts, WorkerState};
