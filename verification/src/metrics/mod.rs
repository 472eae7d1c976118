//! Metrics of workers and processes.
pub mod process_metrics;
pub mod process_tree_tracker;
pub mod worker_metrics;

pub use process_metrics::{
    ProcessMetricsCollector, RawRuntimeMetrics, TimerCommand, WorkerMeta,
    PROCESS_METRIC_UPDATE_INTERVAL, WORKER_STATE_TTL, WORKER_STATE_TTL_MS,
};
pub use worker_metrics::{
    HistogramWrapper, TaskInfo, TaskStats, WorkerMetrics, HISTOGRAM_MAX_NS, HISTOGRAM_SIGFIG,
};
