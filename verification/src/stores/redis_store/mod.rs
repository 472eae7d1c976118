//! A store in a Redis server: the commands that are sent, and what the replies
//! mean.
pub mod command;
pub mod insertion;
pub mod laws;
pub mod metrics;
pub mod operations;
pub mod records;
pub mod version;
pub mod writing;

use crate::error::{KioError, KioResult};
use crate::outside::lowercase::{self, to_lowercase};
use crate::outside::uuid::{self, uuid_text};
use crate::queue::CollectionSuffix;
use vstd::prelude::*;

pub use version::RedisVersion;

verus! {

/// The names of a queue in a Redis server.
#[derive(Debug)]
pub struct RedisStore {
    /// The prefix of every collection's key.
    pub prefix: String,
    /// The name of the queue.
    pub name: String,
    /// The group of consumers that this store reads events in.
    pub consumer_group: String,
    /// The consumer that this store is.
    pub consumer_name: String,
    /// The key of the event stream.
    pub stream_key: String,
    /// The version of the server.
    pub redis_version: RedisVersion,
}

/// The number, or zero where there is none.
pub open spec fn number_or_zero(number: Option<u64>) -> u64 {
    match number {
        Some(number) => number,
        None => 0,
    }
}

impl RedisStore {
    /// The name of the queue with its prefix.
    pub open spec fn queue_words(self) -> Seq<char> {
        self.prefix@ + ":"@ + self.name@
    }

    /// The key of a collection.
    pub open spec fn key_words(self, col: CollectionSuffix) -> Seq<char> {
        lowercase::compact_lowercase(col.full_name(self.prefix@, self.name@))
    }

    /// The names for the queue `name`, in lower case, at a server that reports
    /// `info`, for the consumer `id`. The prefix is `"{kio}"` where none is
    /// given.
    pub fn new(prefix: Option<&str>, name: &str, id: u128, info: &str) -> (store: KioResult<Self>)
        ensures
            match version::reported_version(info@) {
                Some(redis_version) => store matches Ok(store) && {
                    let prefix = match prefix {
                        Some(prefix) => prefix@,
                        None => "{kio}"@,
                    };
                    &&& store.prefix@ == prefix
                    &&& store.name@ == lowercase::lowercase(name@)
                    &&& store.consumer_group@ == prefix + "-"@ + prefix + "-group-"@
                        + uuid::hyphenated(id)
                    &&& store.consumer_name@ == "consumer-"@ + uuid::hyphenated(id)
                    &&& store.stream_key@ == store.key_words(CollectionSuffix::Events)
                    &&& store.redis_version == redis_version
                },
                None => store matches Err(KioError::IoError(_)),
            },
    {
        let redis_version = match RedisVersion::parse(info) {
            Some(redis_version) => redis_version,
            None => return Err(
                KioError::IoError(String::from_str("failed to fetch redis-version info ")),
            ),
        };
        let prefix = match prefix {
            Some(prefix) => prefix,
            None => "{kio}",
        };
        let name = to_lowercase(name);
        let id_text = uuid_text(id);
        let mut consumer_group = String::from_str(prefix);
        consumer_group.append("-");
        consumer_group.append(prefix);
        consumer_group.append("-group-");
        consumer_group.append(id_text.as_str());
        let mut consumer_name = String::from_str("consumer-");
        consumer_name.append(id_text.as_str());
        let stream_key = CollectionSuffix::Events.to_collection_name(prefix, name.as_str());
        Ok(
            RedisStore {
                prefix: String::from_str(prefix),
                name,
                consumer_group,
                consumer_name,
                stream_key,
                redis_version,
            },
        )
    }

    /// The name of the queue with its prefix.
    pub fn queue(&self) -> (queue: String)
        ensures
            queue@ == self.queue_words(),
    {
        let mut queue = self.prefix.clone();
        queue.append(":");
        queue.append(self.name.as_str());
        queue
    }

    /// The key of a collection.
    pub fn key(&self, col: CollectionSuffix) -> (key: String)
        ensures
            key@ == self.key_words(col),
    {
        col.to_collection_name(self.prefix.as_str(), self.name.as_str())
    }

    /// The name of the queue.
    pub fn queue_name(&self) -> (name: &str)
        ensures
            name@ == self.name@,
    {
        self.name.as_str()
    }

    /// The prefix of every collection's key.
    pub fn queue_prefix(&self) -> (prefix: &str)
        ensures
            prefix@ == self.prefix@,
    {
        self.prefix.as_str()
    }
}

} // verus!
