//! Calls into outside crates, each behind a small function whose contract is
//! trusted.

pub mod clock;
pub mod cpus;
pub mod cron;
pub mod histogram;
pub mod json;
pub mod lowercase;
pub mod monotonic;
pub mod pipeline;
pub mod registry;
pub mod scored_ids;
pub mod slot_index;
pub mod sorted_ids;
pub mod sorted_map;
pub mod utf8;
pub mod uuid;
