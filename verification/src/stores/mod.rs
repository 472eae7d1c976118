//! Backing stores.
pub mod inmemory_store;
pub mod insertion_laws;
pub mod laws;
pub mod record_laws;
pub mod redis_store;
pub mod rocksdb_store;
pub mod state;

use crate::job::JobToken;
use vstd::prelude::*;

pub use inmemory_store::InMemoryStore;
pub use redis_store::{RedisStore, RedisVersion};
pub use rocksdb_store::{ivec_to_number, RocksDbStore};
pub use state::{Listener, StoreState};

verus! {

/// What a lock is held with.
#[derive(Debug, Clone, Copy, PartialEq, Eq, Structural)]
pub enum Lock {
    /// The token of a worker.
    Token(JobToken),
    /// The check for stalled jobs.
    StallCheck,
}

} // verus!
