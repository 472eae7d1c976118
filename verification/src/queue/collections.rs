//! The named collections of a queue and their tags.
use crate::job::JobState;
use crate::outside::lowercase::{self, to_compact_lowercase};
use crate::utils::text::{self, decimal};
use vstd::prelude::*;

verus! {

/// Identifies a named collection (list, set, sorted set, hash, or key) in the
/// backing store.
#[derive(Debug, Clone, Copy, PartialEq, Eq, PartialOrd, Ord, Structural)]
pub enum CollectionSuffix {
    /// List of jobs that are being processed.
    Active,
    /// Sorted set of completed jobs, by finish time.
    Completed,
    /// Sorted set of delayed jobs, by scheduled time.
    Delayed,
    /// Set of jobs whose lock has expired.
    Stalled,
    /// Sorted set of jobs with a priority.
    Prioritized,
    /// The priority counter.
    PriorityCounter,
    /// The job id counter.
    Id,
    /// Queue metadata: processing count, pause flag, event mode.
    Meta,
    /// The event stream or channel.
    Events,
    /// List of jobs waiting for a worker.
    Wait,
    /// List of jobs held while the queue is paused.
    Paused,
    /// Sorted set of failed jobs, by failure time.
    Failed,
    /// Marker for queue state signalling.
    Marker,
    /// The fields of one job.
    Job(u64),
    /// The queue's top-level key.
    Prefix,
    /// The lock of one job.
    Lock(u64),
    /// Time of the last check for stalled jobs.
    StalledCheck,
    /// Metrics of the workers.
    WorkerMetrics,
    /// Metrics of the processes.
    ProcessMetrics,
}

/// The lower 56 bits of a tag.
pub const PAYLOAD_MASK: u64 = 0x00FF_FFFF_FFFF_FFFF;

/// One more than the largest payload of a tag.
pub const PAYLOAD_LIMIT: u64 = 0x0100_0000_0000_0000;

impl CollectionSuffix {
    /// The collection's own name.
    pub open spec fn words(self) -> Seq<char> {
        match self {
            CollectionSuffix::Active => "Active"@,
            CollectionSuffix::Completed => "Completed"@,
            CollectionSuffix::Delayed => "Delayed"@,
            CollectionSuffix::Stalled => "Stalled"@,
            CollectionSuffix::Prioritized => "Prioritized"@,
            CollectionSuffix::PriorityCounter => "PriorityCounter"@,
            CollectionSuffix::Id => "Id"@,
            CollectionSuffix::Meta => "Meta"@,
            CollectionSuffix::Events => "Events"@,
            CollectionSuffix::Wait => "Wait"@,
            CollectionSuffix::Paused => "Paused"@,
            CollectionSuffix::Failed => "Failed"@,
            CollectionSuffix::Marker => "Marker"@,
            CollectionSuffix::Job(id) => text::decimal_digits(id as nat),
            CollectionSuffix::Prefix => Seq::<char>::empty(),
            CollectionSuffix::Lock(id) => text::decimal_digits(id as nat) + ":lock"@,
            CollectionSuffix::StalledCheck => "stalled_check"@,
            CollectionSuffix::WorkerMetrics => "worker_metrics"@,
            CollectionSuffix::ProcessMetrics => "process_metrics"@,
        }
    }

    /// The collection's own name.
    pub fn text(&self) -> (text: String)
        ensures
            text@ == self.words(),
    {
        match self {
            CollectionSuffix::Active => String::from_str("Active"),
            CollectionSuffix::Completed => String::from_str("Completed"),
            CollectionSuffix::Delayed => String::from_str("Delayed"),
            CollectionSuffix::Stalled => String::from_str("Stalled"),
            CollectionSuffix::Prioritized => String::from_str("Prioritized"),
            CollectionSuffix::PriorityCounter => String::from_str("PriorityCounter"),
            CollectionSuffix::Id => String::from_str("Id"),
            CollectionSuffix::Meta => String::from_str("Meta"),
            CollectionSuffix::Events => String::from_str("Events"),
            CollectionSuffix::Wait => String::from_str("Wait"),
            CollectionSuffix::Paused => String::from_str("Paused"),
            CollectionSuffix::Failed => String::from_str("Failed"),
            CollectionSuffix::Marker => String::from_str("Marker"),
            CollectionSuffix::Job(id) => decimal(*id),
            CollectionSuffix::Prefix => String::new(),
            CollectionSuffix::Lock(id) => {
                let mut text = decimal(*id);
                text.append(":lock");
                text
            },
            CollectionSuffix::StalledCheck => String::from_str("stalled_check"),
            CollectionSuffix::WorkerMetrics => String::from_str("worker_metrics"),
            CollectionSuffix::ProcessMetrics => String::from_str("process_metrics"),
        }
    }

    /// The key of the collection in the store: `{prefix}:{name}:{self}` before
    /// it is put in lower case.
    pub open spec fn full_name(self, prefix: Seq<char>, name: Seq<char>) -> Seq<char> {
        prefix + ":"@ + name + ":"@ + self.words()
    }

    /// The key of the collection in the store: `{prefix}:{name}:{self}` in
    /// lower case.
    pub fn to_collection_name(&self, prefix: &str, name: &str) -> (key: String)
        ensures
            key@ == lowercase::compact_lowercase(self.full_name(prefix@, name@)),
            lowercase::all_ascii(self.full_name(prefix@, name@)) ==> key@
                == lowercase::ascii_lowered(self.full_name(prefix@, name@)),
    {
        let mut key = String::from_str(prefix);
        key.append(":");
        key.append(name);
        key.append(":");
        key.append(self.text().as_str());
        to_compact_lowercase(key.as_str())
    }

    /// The number of the variant.
    pub open spec fn number(self) -> u8 {
        match self {
            CollectionSuffix::Active => 1,
            CollectionSuffix::Completed => 2,
            CollectionSuffix::Delayed => 3,
            CollectionSuffix::Stalled => 4,
            CollectionSuffix::Prioritized => 5,
            CollectionSuffix::PriorityCounter => 6,
            CollectionSuffix::Id => 7,
            CollectionSuffix::Meta => 8,
            CollectionSuffix::Events => 9,
            CollectionSuffix::Wait => 10,
            CollectionSuffix::Paused => 11,
            CollectionSuffix::Failed => 12,
            CollectionSuffix::Marker => 13,
            CollectionSuffix::Job(_) => 14,
            CollectionSuffix::Prefix => 15,
            CollectionSuffix::Lock(_) => 16,
            CollectionSuffix::StalledCheck => 17,
            CollectionSuffix::WorkerMetrics => 18,
            CollectionSuffix::ProcessMetrics => 19,
        }
    }

    /// The payload of the variant, where it has one.
    pub open spec fn payload(self) -> u64 {
        match self {
            CollectionSuffix::Job(id) => id,
            CollectionSuffix::Lock(id) => id,
            _ => 0,
        }
    }

    /// The tag: the number of the variant above the lower 56 bits of the
    /// payload.
    pub open spec fn tagged(self) -> int {
        self.number() * PAYLOAD_LIMIT + self.payload() % PAYLOAD_LIMIT
    }

    /// The number of the variant.
    fn discriminant(&self) -> (number: u8)
        ensures
            number == self.number(),
            1 <= number <= 19,
    {
        match self {
            CollectionSuffix::Active => 1,
            CollectionSuffix::Completed => 2,
            CollectionSuffix::Delayed => 3,
            CollectionSuffix::Stalled => 4,
            CollectionSuffix::Prioritized => 5,
            CollectionSuffix::PriorityCounter => 6,
            CollectionSuffix::Id => 7,
            CollectionSuffix::Meta => 8,
            CollectionSuffix::Events => 9,
            CollectionSuffix::Wait => 10,
            CollectionSuffix::Paused => 11,
            CollectionSuffix::Failed => 12,
            CollectionSuffix::Marker => 13,
            CollectionSuffix::Job(_) => 14,
            CollectionSuffix::Prefix => 15,
            CollectionSuffix::Lock(_) => 16,
            CollectionSuffix::StalledCheck => 17,
            CollectionSuffix::WorkerMetrics => 18,
            CollectionSuffix::ProcessMetrics => 19,
        }
    }

    /// Encodes the variant in the top 8 bits and its payload in the lower 56.
    pub fn tag(&self) -> (tag: u64)
        ensures
            tag == self.tagged(),
    {
        let number: u8 = self.discriminant();
        let top: u64 = (number as u64) << 56;
        proof {
            assert(((number as u64) << 56) == (number as u64) * 0x0100_0000_0000_0000)
                by (bit_vector)
                requires
                    number <= 19,
            ;
        }
        match self {
            CollectionSuffix::Job(id) | CollectionSuffix::Lock(id) => {
                let id: u64 = *id;
                proof {
                    assert((((number as u64) << 56) | (id & 0x00FF_FFFF_FFFF_FFFF)) == (
                    number as u64) * 0x0100_0000_0000_0000 + id % 0x0100_0000_0000_0000)
                        by (bit_vector)
                        requires
                            number <= 19,
                    ;
                }
                top | (id & PAYLOAD_MASK)
            },
            _ => top,
        }
    }

    /// The byte at position `i` of `tag`, counted from the most significant
    /// one.
    pub open spec fn byte_of(tag: int, i: int) -> int {
        (tag / vstd::arithmetic::power::pow(256, (7 - i) as nat)) % 256
    }

    /// The tag as big-endian bytes.
    pub fn to_bytes(&self) -> (bytes: [u8; 8])
        ensures
            forall|i: int| 0 <= i < 8 ==> bytes@[i] == #[trigger] Self::byte_of(self.tagged(), i),
    {
        let tag: u64 = self.tag();
        proof {
            vstd::arithmetic::power::lemma_pow0(256);
            vstd::arithmetic::power::lemma_pow_adds(256, 0, 1);
            vstd::arithmetic::power::lemma_pow1(256);
            vstd::arithmetic::power::lemma_pow_adds(256, 1, 1);
            vstd::arithmetic::power::lemma_pow_adds(256, 2, 1);
            vstd::arithmetic::power::lemma_pow_adds(256, 3, 1);
            vstd::arithmetic::power::lemma_pow_adds(256, 4, 1);
            vstd::arithmetic::power::lemma_pow_adds(256, 5, 1);
            vstd::arithmetic::power::lemma_pow_adds(256, 6, 1);
        }
        [
            ((tag / 0x0100_0000_0000_0000) % 256) as u8,
            ((tag / 0x0001_0000_0000_0000) % 256) as u8,
            ((tag / 0x0000_0100_0000_0000) % 256) as u8,
            ((tag / 0x0000_0001_0000_0000) % 256) as u8,
            ((tag / 0x0000_0000_0100_0000) % 256) as u8,
            ((tag / 0x0000_0000_0001_0000) % 256) as u8,
            ((tag / 0x0000_0000_0000_0100) % 256) as u8,
            (tag % 256) as u8,
        ]
    }

    /// The variant that `tag` stands for.
    pub open spec fn untagged(tag: u64) -> Option<CollectionSuffix> {
        let number = tag / PAYLOAD_LIMIT;
        let payload = tag % PAYLOAD_LIMIT;
        if number == 1 {
            Some(CollectionSuffix::Active)
        } else if number == 2 {
            Some(CollectionSuffix::Completed)
        } else if number == 3 {
            Some(CollectionSuffix::Delayed)
        } else if number == 4 {
            Some(CollectionSuffix::Stalled)
        } else if number == 5 {
            Some(CollectionSuffix::Prioritized)
        } else if number == 6 {
            Some(CollectionSuffix::PriorityCounter)
        } else if number == 7 {
            Some(CollectionSuffix::Id)
        } else if number == 8 {
            Some(CollectionSuffix::Meta)
        } else if number == 9 {
            Some(CollectionSuffix::Events)
        } else if number == 10 {
            Some(CollectionSuffix::Wait)
        } else if number == 11 {
            Some(CollectionSuffix::Paused)
        } else if number == 12 {
            Some(CollectionSuffix::Failed)
        } else if number == 13 {
            Some(CollectionSuffix::Marker)
        } else if number == 14 {
            Some(CollectionSuffix::Job(payload))
        } else if number == 15 {
            Some(CollectionSuffix::Prefix)
        } else if number == 16 {
            Some(CollectionSuffix::Lock(payload))
        } else if number == 17 {
            Some(CollectionSuffix::StalledCheck)
        } else if number == 18 {
            Some(CollectionSuffix::WorkerMetrics)
        } else if number == 19 {
            Some(CollectionSuffix::ProcessMetrics)
        } else {
            None
        }
    }

    /// Decodes a tag, or `None` if its top 8 bits name no variant.
    pub fn from_tag(tag: u64) -> (suffix: Option<Self>)
        ensures
            suffix == Self::untagged(tag),
    {
        let disc: u8 = (tag >> 56) as u8;
        let payload: u64 = tag & PAYLOAD_MASK;
        proof {
            assert((tag >> 56) == tag / 0x0100_0000_0000_0000 && (tag >> 56) < 256) by (bit_vector);
            assert((tag & 0x00FF_FFFF_FFFF_FFFF) == tag % 0x0100_0000_0000_0000) by (bit_vector);
        }
        match disc {
            1 => Some(CollectionSuffix::Active),
            2 => Some(CollectionSuffix::Completed),
            3 => Some(CollectionSuffix::Delayed),
            4 => Some(CollectionSuffix::Stalled),
            5 => Some(CollectionSuffix::Prioritized),
            6 => Some(CollectionSuffix::PriorityCounter),
            7 => Some(CollectionSuffix::Id),
            8 => Some(CollectionSuffix::Meta),
            9 => Some(CollectionSuffix::Events),
            10 => Some(CollectionSuffix::Wait),
            11 => Some(CollectionSuffix::Paused),
            12 => Some(CollectionSuffix::Failed),
            13 => Some(CollectionSuffix::Marker),
            14 => Some(CollectionSuffix::Job(payload)),
            15 => Some(CollectionSuffix::Prefix),
            16 => Some(CollectionSuffix::Lock(payload)),
            17 => Some(CollectionSuffix::StalledCheck),
            18 => Some(CollectionSuffix::WorkerMetrics),
            19 => Some(CollectionSuffix::ProcessMetrics),
            _ => None,
        }
    }

    /// The collection that jobs in `state` are kept in.
    pub open spec fn of_state(state: JobState) -> CollectionSuffix {
        match state {
            JobState::Wait => CollectionSuffix::Wait,
            JobState::Stalled | JobState::Paused => CollectionSuffix::Paused,
            JobState::Active | JobState::Resumed => CollectionSuffix::Active,
            JobState::Completed => CollectionSuffix::Completed,
            JobState::Failed => CollectionSuffix::Failed,
            JobState::Delayed => CollectionSuffix::Delayed,
            JobState::Progress => CollectionSuffix::Prefix,
            JobState::Prioritized => CollectionSuffix::Prioritized,
            JobState::Processing => CollectionSuffix::Meta,
            JobState::Obliterated => CollectionSuffix::Events,
        }
    }
}

/// A tag is a `u64`, and decoding it gives back the variant that it was made
/// from, as long as the payload fits in 56 bits.
pub proof fn law_from_tag_undoes_tag(suffix: CollectionSuffix)
    requires
        suffix.payload() < PAYLOAD_LIMIT,
    ensures
        0 <= suffix.tagged() <= u64::MAX,
        CollectionSuffix::untagged(suffix.tagged() as u64) == Some(suffix),
{
    let (n, p) = (suffix.number() as int, suffix.payload() as int);
    assert((n * 0x0100_0000_0000_0000 + p) / 0x0100_0000_0000_0000 == n && (n
        * 0x0100_0000_0000_0000 + p) % 0x0100_0000_0000_0000 == p) by (nonlinear_arith)
        requires
            0 <= p < 0x0100_0000_0000_0000,
    ;
}

/// Different variants, and different payloads that fit in 56 bits, have
/// different tags.
pub proof fn law_tags_are_distinct(a: CollectionSuffix, b: CollectionSuffix)
    requires
        a.payload() < PAYLOAD_LIMIT,
        b.payload() < PAYLOAD_LIMIT,
        a.tagged() == b.tagged(),
    ensures
        a == b,
{
    law_from_tag_undoes_tag(a);
    law_from_tag_undoes_tag(b);
}

impl From<JobState> for CollectionSuffix {
    fn from(val: JobState) -> (suffix: Self) {
        match val {
            JobState::Wait => CollectionSuffix::Wait,
            JobState::Stalled | JobState::Paused => CollectionSuffix::Paused,
            JobState::Active | JobState::Resumed => CollectionSuffix::Active,
            JobState::Completed => CollectionSuffix::Completed,
            JobState::Failed => CollectionSuffix::Failed,
            JobState::Delayed => CollectionSuffix::Delayed,
            JobState::Progress => CollectionSuffix::Prefix,
            JobState::Prioritized => CollectionSuffix::Prioritized,
            JobState::Processing => CollectionSuffix::Meta,
            JobState::Obliterated => CollectionSuffix::Events,
        }
    }
}

impl vstd::std_specs::convert::FromSpecImpl<JobState> for CollectionSuffix {
    open spec fn obeys_from_spec() -> bool {
        true
    }

    open spec fn from_spec(val: JobState) -> Self {
        CollectionSuffix::of_state(val)
    }
}

/// A job at rest is kept in the collection that its state is named after; a stalled one
/// is held with the paused ones, a resumed one with the active ones.
pub proof fn law_jobs_are_kept_under_their_state()
    ensures
        CollectionSuffix::of_state(JobState::Wait) == CollectionSuffix::Wait,
        CollectionSuffix::of_state(JobState::Active) == CollectionSuffix::Active,
        CollectionSuffix::of_state(JobState::Paused) == CollectionSuffix::Paused,
        CollectionSuffix::of_state(JobState::Completed) == CollectionSuffix::Completed,
        CollectionSuffix::of_state(JobState::Failed) == CollectionSuffix::Failed,
        CollectionSuffix::of_state(JobState::Delayed) == CollectionSuffix::Delayed,
        CollectionSuffix::of_state(JobState::Prioritized) == CollectionSuffix::Prioritized,
        CollectionSuffix::of_state(JobState::Stalled) == CollectionSuffix::Paused,
        CollectionSuffix::of_state(JobState::Resumed) == CollectionSuffix::Active,
        CollectionSuffix::of_state(JobState::Progress) == CollectionSuffix::Prefix,
        CollectionSuffix::of_state(JobState::Processing) == CollectionSuffix::Meta,
        CollectionSuffix::of_state(JobState::Obliterated) == CollectionSuffix::Events,
{
}

/// The bytes of a tag are its digits to the base 256, the most significant one first:
/// put together they make up the tag.
pub proof fn law_bytes_make_up_the_tag(suffix: CollectionSuffix)
    requires
        suffix.payload() < PAYLOAD_LIMIT,
    ensures
        ({
            let tag = suffix.tagged();
            &&& CollectionSuffix::byte_of(tag, 0) == suffix.number()
            &&& forall|i: int|
                0 <= i < 8 ==> 0 <= #[trigger] CollectionSuffix::byte_of(tag, i) <= 255
            &&& CollectionSuffix::byte_of(tag, 0) * 0x0100_0000_0000_0000
                + CollectionSuffix::byte_of(tag, 1) * 0x0001_0000_0000_0000
                + CollectionSuffix::byte_of(tag, 2) * 0x0000_0100_0000_0000
                + CollectionSuffix::byte_of(tag, 3) * 0x0000_0001_0000_0000
                + CollectionSuffix::byte_of(tag, 4) * 0x0000_0000_0100_0000
                + CollectionSuffix::byte_of(tag, 5) * 0x0000_0000_0001_0000
                + CollectionSuffix::byte_of(tag, 6) * 0x0000_0000_0000_0100
                + CollectionSuffix::byte_of(tag, 7) == tag
        }),
{
    law_from_tag_undoes_tag(suffix);
    vstd::arithmetic::power::lemma_pow0(256);
    vstd::arithmetic::power::lemma_pow1(256);
    vstd::arithmetic::power::lemma_pow_adds(256, 1, 1);
    vstd::arithmetic::power::lemma_pow_adds(256, 2, 1);
    vstd::arithmetic::power::lemma_pow_adds(256, 3, 1);
    vstd::arithmetic::power::lemma_pow_adds(256, 4, 1);
    vstd::arithmetic::power::lemma_pow_adds(256, 5, 1);
    vstd::arithmetic::power::lemma_pow_adds(256, 6, 1);
    let tag = suffix.tagged() as u64;
    assert((tag / 0x0100_0000_0000_0000) % 256 * 0x0100_0000_0000_0000 + (tag
        / 0x0001_0000_0000_0000) % 256 * 0x0001_0000_0000_0000 + (tag / 0x0000_0100_0000_0000)
        % 256 * 0x0000_0100_0000_0000 + (tag / 0x0000_0001_0000_0000) % 256
        * 0x0000_0001_0000_0000 + (tag / 0x0000_0000_0100_0000) % 256 * 0x0000_0000_0100_0000 + (
    tag / 0x0000_0000_0001_0000) % 256 * 0x0000_0000_0001_0000 + (tag / 0x0000_0000_0000_0100)
        % 256 * 0x0000_0000_0000_0100 + tag % 256 == tag) by (bit_vector);
    assert(tag / 0x0100_0000_0000_0000 == suffix.number());
    assert forall|i: int| 0 <= i < 8 implies 0 <= #[trigger] CollectionSuffix::byte_of(
        suffix.tagged(),
        i,
    ) <= 255 by {
    }
}

/// The tag of a collection without a payload is its number and nothing else; that of a
/// job's record and of its lock has the job's id below it.
pub proof fn law_tag_holds_number_and_id(id: u64)
    requires
        id < PAYLOAD_LIMIT,
    ensures
        CollectionSuffix::Job(id).tagged() == 14 * 0x0100_0000_0000_0000 + id,
        CollectionSuffix::Lock(id).tagged() == 16 * 0x0100_0000_0000_0000 + id,
        CollectionSuffix::Job(id).payload() == id && CollectionSuffix::Lock(id).payload() == id,
        CollectionSuffix::Active.tagged() == 0x0100_0000_0000_0000,
        CollectionSuffix::Wait.tagged() == 10 * 0x0100_0000_0000_0000,
        CollectionSuffix::StalledCheck.tagged() == 17 * 0x0100_0000_0000_0000,
{
}

/// The key of a collection begins with the prefix and the name of its queue, and ends
/// with the collection's own name: two collections of one queue have one key only where
/// they have one name, and two queues with names of the same length only where the
/// queues have one name. The key of a job's lock is that of the job and more.
pub proof fn law_key_has_its_parts(
    a: CollectionSuffix,
    b: CollectionSuffix,
    prefix: Seq<char>,
    name: Seq<char>,
    other: Seq<char>,
    id: u64,
)
    requires
        name.len() == other.len(),
    ensures
        a.full_name(prefix, name) == b.full_name(prefix, name) ==> a.words() == b.words(),
        a.full_name(prefix, name) == a.full_name(prefix, other) ==> name == other,
        a.full_name(prefix, name).take(prefix.len() as int) == prefix,
        CollectionSuffix::Lock(id).full_name(prefix, name) == CollectionSuffix::Job(id).full_name(
            prefix,
            name,
        ) + ":lock"@,
{
    reveal_strlit(":");
    let head = prefix + ":"@ + name + ":"@;
    assert(a.full_name(prefix, name) =~= head + a.words());
    assert(b.full_name(prefix, name) =~= head + b.words());
    if a.full_name(prefix, name) == b.full_name(prefix, name) {
        assert(a.words() =~= (head + a.words()).skip(head.len() as int));
        assert(b.words() =~= (head + b.words()).skip(head.len() as int));
    }
    if a.full_name(prefix, name) == a.full_name(prefix, other) {
        let from = prefix.len() as int + 1;
        assert(name =~= a.full_name(prefix, name).subrange(from, from + name.len()));
        assert(other =~= a.full_name(prefix, other).subrange(from, from + name.len()));
    }
    assert(a.full_name(prefix, name).take(prefix.len() as int) =~= prefix);
    assert(CollectionSuffix::Lock(id).full_name(prefix, name) =~= CollectionSuffix::Job(
        id,
    ).full_name(prefix, name) + ":lock"@);
}

/// A state is converted to the collection that its jobs are kept in.
pub proof fn law_conversion_is_where_jobs_are_kept(state: JobState)
    ensures
        <CollectionSuffix as vstd::std_specs::convert::FromSpec<JobState>>::from_spec(state)
            == CollectionSuffix::of_state(state),
{
}

/// A collection of jobs at rest is named after the state that it is the collection of,
/// and a job's record after its id; the name of a job's lock is that of its record,
/// marked as a lock.
pub proof fn law_collections_are_named_after_states(id: u64)
    ensures
        CollectionSuffix::Wait.words() == JobState::Wait.words(),
        CollectionSuffix::Active.words() == JobState::Active.words(),
        CollectionSuffix::Paused.words() == JobState::Paused.words(),
        CollectionSuffix::Stalled.words() == JobState::Stalled.words(),
        CollectionSuffix::Delayed.words() == JobState::Delayed.words(),
        CollectionSuffix::Prioritized.words() == JobState::Prioritized.words(),
        CollectionSuffix::Completed.words() == JobState::Completed.words(),
        CollectionSuffix::Failed.words() == JobState::Failed.words(),
        CollectionSuffix::Job(id).words() == text::decimal_digits(id as nat),
        CollectionSuffix::Lock(id).words() == CollectionSuffix::Job(id).words() + ":lock"@,
        CollectionSuffix::Prefix.words().len() == 0,
{
}

} // verus!
