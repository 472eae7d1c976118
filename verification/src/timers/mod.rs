//! Timers, and a map whose entries expire.
pub mod concurrent_timed_map;
pub mod delay_queue_timer;
pub mod timer;

pub use concurrent_timed_map::{ExpiryValue, TimedMap};
pub use delay_queue_timer::{
    process_timer, register_worker_timers, JobEntry, LockExtension, TimerType, TimerWork,
    WorkerEntry,
};
pub use timer::{Timer, TimerAction, TimerState};
