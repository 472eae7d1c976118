//! Per-job options, retention policies, and what is recorded of failures.
use crate::job::backoff::BackOffJobOptions;
use crate::job::delay::JobDelay;
use crate::job::repeat::Repeat;
use crate::outside::uuid::{self, random_uuid, uuid_text};
use crate::time::TimeSpan;
use crate::utils::text::{self, decimal};
use vstd::prelude::*;

verus! {

/// Timing and attempt statistics of a processed job.
#[derive(Debug, Clone, Copy, PartialEq, Eq, Hash, Structural)]
pub struct JobMetrics {
    /// How long the processor ran.
    pub ran_for: TimeSpan,
    /// How long the job waited before it was processed.
    pub delayed_for: TimeSpan,
    /// The attempt on which the job finished.
    pub attempt: u64,
    /// The configured delay in milliseconds.
    pub delay: u64,
    /// The job's id.
    pub id: u64,
}

/// Fine-grained retention policy for completed or failed jobs.
#[derive(Debug, Clone, Copy, PartialEq, Eq, Hash, Structural)]
pub struct KeepJobs {
    /// Maximum age in seconds of a record that is kept.
    pub age: Option<i64>,
    /// Maximum number of records that are kept.
    pub count: Option<i64>,
}

impl Default for KeepJobs {
    /// No limit.
    fn default() -> (keep: Self)
        ensures
            keep == (KeepJobs { age: None, count: None }),
    {
        KeepJobs { age: None, count: None }
    }
}

/// Whether, and how many, records of completed or failed jobs are kept.
#[derive(Debug, Clone, Copy, PartialEq, Eq, Hash, Structural)]
pub enum RemoveOnCompletionOrFailure {
    /// `true` removes the record at once; `false` keeps it forever.
    Bool(bool),
    /// Keep at most this many records.
    Int(i64),
    /// Limit age and count.
    Opts(KeepJobs),
}

impl Default for RemoveOnCompletionOrFailure {
    /// Keep forever.
    fn default() -> (policy: Self)
        ensures
            policy == RemoveOnCompletionOrFailure::Bool(false),
    {
        RemoveOnCompletionOrFailure::Bool(false)
    }
}

/// One stack trace of a failed attempt.
#[derive(Debug)]
pub struct Trace {
    /// The attempt.
    pub run: u64,
    /// The failure in words.
    pub reason: String,
    /// The stack frames.
    pub frames: Vec<String>,
}

impl Trace {
    /// Two traces say the same.
    pub open spec fn same(self, other: Trace) -> bool {
        &&& self.run == other.run
        &&& self.reason == other.reason
        &&& self.frames@ == other.frames@
    }
}

/// A copy of a list of texts.
pub fn clone_texts(texts: &Vec<String>) -> (res: Vec<String>)
    ensures
        res@ == texts@,
{
    let mut res: Vec<String> = Vec::new();
    let mut i: usize = 0;
    while i < texts.len()
        invariant
            i <= texts.len(),
            res@ == texts@.take(i as int),
        decreases texts.len() - i,
    {
        res.push(texts[i].clone());
        i += 1;
        assert(res@ =~= texts@.take(i as int));
    }
    assert(texts@.take(texts@.len() as int) =~= texts@);
    res
}

impl Clone for Trace {
    fn clone(&self) -> (res: Self)
        ensures
            res.same(*self),
    {
        Trace { run: self.run, reason: self.reason.clone(), frames: clone_texts(&self.frames) }
    }
}

/// What is recorded when a job fails for good.
#[derive(Debug)]
pub struct FailedDetails {
    /// The attempt on which it failed.
    pub run: u64,
    /// The failure in words.
    pub reason: String,
}

impl Clone for FailedDetails {
    fn clone(&self) -> (res: Self)
        ensures
            res == *self,
    {
        FailedDetails { run: self.run, reason: self.reason.clone() }
    }
}

/// The token with which a worker holds the lock of a job: two random
/// identifiers and the job's id.
#[derive(Debug, Clone, Copy, PartialEq, Eq, PartialOrd, Ord, Hash, Structural)]
pub struct JobToken(pub u128, pub u128, pub u64);

impl Default for JobToken {
    /// A fresh random token.
    fn default() -> (token: Self)
        ensures
            token.2 == 0,
    {
        JobToken(random_uuid(), random_uuid(), 0)
    }
}

impl JobToken {
    /// The token in words.
    pub open spec fn words(self) -> Seq<char> {
        uuid::hyphenated(self.0) + "-"@ + uuid::hyphenated(self.1) + "-"@ + text::decimal_digits(
            self.2 as nat,
        )
    }

    /// The token in words: its three parts with hyphens between them.
    pub fn text(&self) -> (text: String)
        ensures
            text@ == self.words(),
    {
        let mut text = uuid_text(self.0);
        text.append("-");
        text.append(uuid_text(self.1).as_str());
        text.append("-");
        text.append(decimal(self.2).as_str());
        text
    }
}

/// Per-job options. What is left at its default is inherited from the queue.
#[derive(Debug)]
pub struct JobOptions {
    /// Scheduling priority; lower values run first, zero means none.
    pub priority: u64,
    /// When to run the job.
    pub delay: JobDelay,
    /// An explicit job id.
    pub id: Option<u64>,
    /// Maximum number of attempts before the job fails for good.
    pub attempts: u64,
    /// Retention policy for a completed job.
    pub remove_on_complete: Option<RemoveOnCompletionOrFailure>,
    /// Retention policy for a failed job.
    pub remove_on_fail: Option<RemoveOnCompletionOrFailure>,
    /// Backoff strategy.
    pub backoff: Option<BackOffJobOptions>,
    /// Repeat policy.
    pub repeat: Option<Repeat>,
}

impl JobOptions {
    /// No priority, no delay, nothing set.
    pub open spec fn unset() -> JobOptions {
        JobOptions {
            priority: 0,
            delay: JobDelay::TimeMilis(0),
            id: None,
            attempts: 0,
            remove_on_complete: None,
            remove_on_fail: None,
            backoff: None,
            repeat: None,
        }
    }
}

impl Default for JobOptions {
    /// No priority, no delay, nothing set.
    fn default() -> (opts: Self)
        ensures
            opts == JobOptions::unset(),
    {
        JobOptions {
            priority: 0,
            delay: JobDelay::default(),
            id: None,
            attempts: 0,
            remove_on_complete: None,
            remove_on_fail: None,
            backoff: None,
            repeat: None,
        }
    }
}

impl Clone for JobOptions {
    fn clone(&self) -> (res: Self)
        ensures
            res == *self,
    {
        let backoff = match &self.backoff {
            Some(backoff) => Some(backoff.clone()),
            None => None,
        };
        let repeat = match &self.repeat {
            Some(repeat) => Some(repeat.clone()),
            None => None,
        };
        JobOptions {
            priority: self.priority,
            delay: self.delay.clone(),
            id: self.id,
            attempts: self.attempts,
            remove_on_complete: self.remove_on_complete,
            remove_on_fail: self.remove_on_fail,
            backoff,
            repeat,
        }
    }
}

/// What a job leaves open when it says nothing: every policy, its attempts and its id;
/// it has no priority and no delay.
pub proof fn law_unset_leaves_everything_open()
    ensures
        ({
            let unset = JobOptions::unset();
            &&& unset.backoff is None && unset.repeat is None
            &&& unset.remove_on_complete is None && unset.remove_on_fail is None
            &&& unset.attempts == 0 && unset.id is None
            &&& unset.priority == 0 && unset.delay == JobDelay::TimeMilis(0)
        }),
{
}

/// A token in words has its three parts in their order, with a hyphen between each two.
pub proof fn law_token_has_three_parts(token: JobToken)
    ensures
        ({
            let first = uuid::hyphenated(token.0);
            let second = uuid::hyphenated(token.1);
            let words = token.words();
            let (n, m) = (first.len() as int, second.len() as int);
            &&& words.take(n) == first
            &&& words[n] == '-'
            &&& words.subrange(n + 1, n + 1 + m) == second
            &&& words[n + 1 + m] == '-'
            &&& words.skip(n + m + 2) == text::decimal_digits(token.2 as nat)
        }),
{
    reveal_strlit("-");
    let first = uuid::hyphenated(token.0);
    let second = uuid::hyphenated(token.1);
    let words = token.words();
    let (n, m) = (first.len() as int, second.len() as int);
    assert(words.take(n) =~= first);
    assert(words.subrange(n + 1, n + 1 + m) =~= second);
    assert(words.skip(n + m + 2) =~= text::decimal_digits(token.2 as nat));
}

/// Two traces that say the same have the same run, the same reason and the same frames,
/// and so do two that say what a third says.
pub proof fn law_same_traces_say_the_same(a: Trace, b: Trace, c: Trace)
    requires
        a.same(b),
        b.same(c),
    ensures
        a.same(c) && b.same(a) && a.same(a),
        a.run == b.run && a.reason == b.reason && a.frames@ == b.frames@,
{
}

} // verus!
