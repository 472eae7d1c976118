//! Workers.
pub mod state;
pub mod worker_opts;

pub use state::{FetchedJob, LoopAction, LoopEvent, Worker, WorkerState};
pub use worker_opts::{WorkerOpts, MIN_DELAY_MS_LIMIT};
