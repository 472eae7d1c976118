//! Structures and rules that the rest is built from.
mod concurrent_structures;
pub mod id_set;
pub mod parse;
pub mod processing;
pub mod scheduling;
pub mod sequences;
pub mod slot_map;
pub mod sorted_set;
pub mod text;

pub use concurrent_structures::{ConcurrentDeque, DequeState};
pub use scheduling::{
    calculate_next_priority_score, pause_or_resume_workers, resume_helper, update_job_opts,
};
