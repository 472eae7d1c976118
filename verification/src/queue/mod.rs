//! Queue-level types.
pub mod collections;
pub mod metrics;
pub mod options;

pub use collections::CollectionSuffix;
pub use metrics::QueueMetrics;
pub use options::{JobField, ProcessedResult, QueueEventMode, QueueOpts, RetryOptions};
