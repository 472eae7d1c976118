//! The lifecycle state of a job.
use crate::outside::lowercase::{self, to_lowercase};
use crate::utils::text::same_text;
use vstd::prelude::*;

verus! {

/// The lifecycle state of a job within the queue.
#[derive(Debug, Clone, Copy, PartialEq, Eq, PartialOrd, Ord, Hash, Structural)]
pub enum JobState {
    /// Ready to be picked up by a worker.
    Wait,
    /// In the priority set, waiting to be moved to active.
    Prioritized,
    /// The worker that held the lock disappeared.
    Stalled,
    /// Being processed by a worker.
    Active,
    /// Waiting in the list of a paused queue.
    Paused,
    /// The queue has resumed; on the way back to `Wait`.
    Resumed,
    /// The processor returned successfully.
    Completed,
    /// The processor failed, or the job stalled too many times.
    Failed,
    /// Scheduled to run later.
    Delayed,
    /// A progress update; not a persistent state.
    Progress,
    /// The queue was obliterated.
    Obliterated,
    /// The worker has started the processor.
    Processing,
}

impl Default for JobState {
    /// Ready to be picked up.
    fn default() -> (state: Self)
        ensures
            state == JobState::Wait,
    {
        JobState::Wait
    }
}

impl JobState {
    /// The state's name.
    pub open spec fn words(self) -> Seq<char> {
        match self {
            JobState::Wait => "Wait"@,
            JobState::Prioritized => "Prioritized"@,
            JobState::Stalled => "Stalled"@,
            JobState::Active => "Active"@,
            JobState::Paused => "Paused"@,
            JobState::Resumed => "Resumed"@,
            JobState::Completed => "Completed"@,
            JobState::Failed => "Failed"@,
            JobState::Delayed => "Delayed"@,
            JobState::Progress => "Progress"@,
            JobState::Obliterated => "Obliterated"@,
            JobState::Processing => "Processing"@,
        }
    }

    /// The state's name.
    pub fn name(&self) -> (name: &'static str)
        ensures
            name@ == self.words(),
    {
        match self {
            JobState::Wait => "Wait",
            JobState::Prioritized => "Prioritized",
            JobState::Stalled => "Stalled",
            JobState::Active => "Active",
            JobState::Paused => "Paused",
            JobState::Resumed => "Resumed",
            JobState::Completed => "Completed",
            JobState::Failed => "Failed",
            JobState::Delayed => "Delayed",
            JobState::Progress => "Progress",
            JobState::Obliterated => "Obliterated",
            JobState::Processing => "Processing",
        }
    }

    /// The state's name in lower case.
    pub open spec fn lower_words(self) -> Seq<char> {
        lowercase::ascii_lowered(self.words())
    }

    /// The state's name in lower case.
    pub fn lower_name(&self) -> (name: String)
        ensures
            name@ == self.lower_words(),
    {
        proof {
            reveal_strlit("Wait");
            reveal_strlit("Prioritized");
            reveal_strlit("Stalled");
            reveal_strlit("Active");
            reveal_strlit("Paused");
            reveal_strlit("Resumed");
            reveal_strlit("Completed");
            reveal_strlit("Failed");
            reveal_strlit("Delayed");
            reveal_strlit("Progress");
            reveal_strlit("Obliterated");
            reveal_strlit("Processing");
        }
        to_lowercase(self.name())
    }

    /// The state whose name, in lower case, is `lower`.
    pub open spec fn of_lowercase(lower: Seq<char>) -> Option<JobState> {
        if lower == "wait"@ {
            Some(JobState::Wait)
        } else if lower == "prioritized"@ {
            Some(JobState::Prioritized)
        } else if lower == "stalled"@ {
            Some(JobState::Stalled)
        } else if lower == "active"@ {
            Some(JobState::Active)
        } else if lower == "paused"@ {
            Some(JobState::Paused)
        } else if lower == "resumed"@ {
            Some(JobState::Resumed)
        } else if lower == "completed"@ {
            Some(JobState::Completed)
        } else if lower == "failed"@ {
            Some(JobState::Failed)
        } else if lower == "delayed"@ {
            Some(JobState::Delayed)
        } else if lower == "progress"@ {
            Some(JobState::Progress)
        } else if lower == "obliterated"@ {
            Some(JobState::Obliterated)
        } else if lower == "processing"@ {
            Some(JobState::Processing)
        } else {
            None
        }
    }

    /// The state whose name, in lower case, is `lower`.
    pub fn from_lowercase(lower: &str) -> (state: Option<JobState>)
        ensures
            state == Self::of_lowercase(lower@),
    {
        if same_text(lower, "wait") {
            Some(JobState::Wait)
        } else if same_text(lower, "prioritized") {
            Some(JobState::Prioritized)
        } else if same_text(lower, "stalled") {
            Some(JobState::Stalled)
        } else if same_text(lower, "active") {
            Some(JobState::Active)
        } else if same_text(lower, "paused") {
            Some(JobState::Paused)
        } else if same_text(lower, "resumed") {
            Some(JobState::Resumed)
        } else if same_text(lower, "completed") {
            Some(JobState::Completed)
        } else if same_text(lower, "failed") {
            Some(JobState::Failed)
        } else if same_text(lower, "delayed") {
            Some(JobState::Delayed)
        } else if same_text(lower, "progress") {
            Some(JobState::Progress)
        } else if same_text(lower, "obliterated") {
            Some(JobState::Obliterated)
        } else if same_text(lower, "processing") {
            Some(JobState::Processing)
        } else {
            None
        }
    }

    /// The state with this name, whatever the case of its letters.
    pub fn from_name(name: &str) -> (state: Option<JobState>)
        ensures
            state == Self::of_lowercase(lowercase::lowercase(name@)),
            lowercase::all_ascii(name@) ==> state == Self::of_lowercase(
                lowercase::ascii_lowered(name@),
            ),
    {
        let lower = to_lowercase(name);
        Self::from_lowercase(lower.as_str())
    }
}

/// The name of a state in lower case leads back to the state.
pub proof fn law_state_is_named(state: JobState)
    ensures
        JobState::of_lowercase(state.lower_words()) == Some(state),
{
    reveal_strlit("wait");
    reveal_strlit("prioritized");
    reveal_strlit("stalled");
    reveal_strlit("active");
    reveal_strlit("paused");
    reveal_strlit("resumed");
    reveal_strlit("completed");
    reveal_strlit("failed");
    reveal_strlit("delayed");
    reveal_strlit("progress");
    reveal_strlit("obliterated");
    reveal_strlit("processing");
    lemma_lower_names(state);
    assert("wait"@.len() == 4);
    assert("active"@.len() == 6 && "paused"@.len() == 6 && "failed"@.len() == 6);
    assert("stalled"@.len() == 7 && "resumed"@.len() == 7 && "delayed"@.len() == 7);
    assert("progress"@.len() == 8 && "completed"@.len() == 9 && "processing"@.len() == 10);
    assert("prioritized"@.len() == 11 && "obliterated"@.len() == 11);
    assert("prioritized"@[0] != "obliterated"@[0]);
    assert("stalled"@[0] != "resumed"@[0] && "stalled"@[0] != "delayed"@[0]);
    assert("resumed"@[0] != "delayed"@[0]);
    assert("active"@[0] != "paused"@[0] && "active"@[0] != "failed"@[0]);
    assert("paused"@[0] != "failed"@[0]);
}

/// Only the name of a state stands for it: a text that stands for a state is the name
/// of that state in lower case, so that no text stands for two.
pub proof fn law_only_its_name_stands_for_a_state(lower: Seq<char>)
    ensures
        JobState::of_lowercase(lower) matches Some(state) ==> state.lower_words() == lower,
{
    if let Some(state) = JobState::of_lowercase(lower) {
        lemma_lower_names(state);
    }
}

/// The names of the states in lower case.
proof fn lemma_lower_names(state: JobState)
    ensures
        state.lower_words() == match state {
            JobState::Wait => "wait"@,
            JobState::Prioritized => "prioritized"@,
            JobState::Stalled => "stalled"@,
            JobState::Active => "active"@,
            JobState::Paused => "paused"@,
            JobState::Resumed => "resumed"@,
            JobState::Completed => "completed"@,
            JobState::Failed => "failed"@,
            JobState::Delayed => "delayed"@,
            JobState::Progress => "progress"@,
            JobState::Obliterated => "obliterated"@,
            JobState::Processing => "processing"@,
        },
{
    reveal_strlit("Wait");
    reveal_strlit("Prioritized");
    reveal_strlit("Stalled");
    reveal_strlit("Active");
    reveal_strlit("Paused");
    reveal_strlit("Resumed");
    reveal_strlit("Completed");
    reveal_strlit("Failed");
    reveal_strlit("Delayed");
    reveal_strlit("Progress");
    reveal_strlit("Obliterated");
    reveal_strlit("Processing");
    reveal_strlit("wait");
    reveal_strlit("prioritized");
    reveal_strlit("stalled");
    reveal_strlit("active");
    reveal_strlit("paused");
    reveal_strlit("resumed");
    reveal_strlit("completed");
    reveal_strlit("failed");
    reveal_strlit("delayed");
    reveal_strlit("progress");
    reveal_strlit("obliterated");
    reveal_strlit("processing");
    let lower = state.lower_words();
    match state {
        JobState::Wait => assert(lower =~= "wait"@),
        JobState::Prioritized => assert(lower =~= "prioritized"@),
        JobState::Stalled => assert(lower =~= "stalled"@),
        JobState::Active => assert(lower =~= "active"@),
        JobState::Paused => assert(lower =~= "paused"@),
        JobState::Resumed => assert(lower =~= "resumed"@),
        JobState::Completed => assert(lower =~= "completed"@),
        JobState::Failed => assert(lower =~= "failed"@),
        JobState::Delayed => assert(lower =~= "delayed"@),
        JobState::Progress => assert(lower =~= "progress"@),
        JobState::Obliterated => assert(lower =~= "obliterated"@),
        JobState::Processing => assert(lower =~= "processing"@),
    }
}

} // verus!
