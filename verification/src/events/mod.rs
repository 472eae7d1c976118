//! Events of a queue.
pub mod parameters;
pub mod stream;

pub use parameters::EventParameters;
pub use stream::{EventField, EventValue, QueueStreamEvent, StreamEventId};
