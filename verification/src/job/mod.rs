//! Jobs and their options.
pub mod backoff;
pub mod cron;
pub mod delay;
pub mod options;
pub mod record;
pub mod repeat;
pub mod state;

pub use backoff::{BackOff, BackOffJobOptions, BackOffOptions, StoredFn, Strategy};
pub use cron::{CronError, CronSchedule};
pub use delay::JobDelay;
pub use options::{
    FailedDetails, JobMetrics, JobOptions, JobToken, KeepJobs, RemoveOnCompletionOrFailure, Trace,
};
pub use record::Job;
pub use repeat::Repeat;
pub use state::JobState;
