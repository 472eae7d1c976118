//! Errors of the queue, the jobs and the workers.
pub mod backtrace_utils;

use crate::job::CronError;
use crate::outside::uuid::{self, uuid_text};
use crate::utils::text::{self, decimal};
use vstd::prelude::*;

pub use backtrace_utils::{BacktraceCatcher, CaughtError, CaughtPanicInfo};

verus! {

/// The error type of most operations.
#[derive(Debug)]
pub enum KioError {
    /// A value could not be written as JSON or read from it.
    JsonError(String),
    /// Input or output failed.
    IoError(String),
    /// A number could not be read.
    ParseIntError(String),
    /// An error with no kind of its own.
    GeneralError(String),
    /// A queue-level error.
    QueueError(QueueError),
    /// A value could not be converted.
    ConversionError {
        /// What the value was.
        from: String,
        /// What it should have become.
        to: String,
    },
    /// The event emitter failed.
    EmitterError(String),
    /// A spawned task ended abnormally.
    JoinError(String),
    /// A worker lifecycle error.
    WorkerError(WorkerError),
    /// A job-level error.
    JobError(JobError),
    /// A cron expression was refused or has no further occurrence.
    CronerError(CronError),
}

impl KioError {
    /// The error in words.
    pub open spec fn words(self) -> Seq<char> {
        match self {
            KioError::JsonError(words) => words@,
            KioError::IoError(words) => words@,
            KioError::ParseIntError(words) => words@,
            KioError::GeneralError(words) => words@,
            KioError::QueueError(error) => error.words(),
            KioError::ConversionError { from, to } => "Failed to Convert: from "@ + from@ + " to "@
                + to@,
            KioError::EmitterError(words) => "Emitter: "@ + words@,
            KioError::JoinError(words) => words@,
            KioError::WorkerError(error) => error.words(),
            KioError::JobError(error) => error.words(),
            KioError::CronerError(error) => error.message@,
        }
    }

    /// The error in words: those of the error inside, where there is one.
    pub fn message(&self) -> (message: String)
        ensures
            message@ == self.words(),
    {
        match self {
            KioError::JsonError(words) => words.clone(),
            KioError::IoError(words) => words.clone(),
            KioError::ParseIntError(words) => words.clone(),
            KioError::GeneralError(words) => words.clone(),
            KioError::QueueError(error) => error.message(),
            KioError::ConversionError { from, to } => {
                let mut message = String::from_str("Failed to Convert: from ");
                message.append(from.as_str());
                message.append(" to ");
                message.append(to.as_str());
                message
            },
            KioError::EmitterError(words) => {
                let mut message = String::from_str("Emitter: ");
                message.append(words.as_str());
                message
            },
            KioError::JoinError(words) => words.clone(),
            KioError::WorkerError(error) => error.message(),
            KioError::JobError(error) => String::from_str(error.message()),
            KioError::CronerError(error) => error.message.clone(),
        }
    }
}

/// `Result` with this crate's error type.
pub type KioResult<T> = Result<T, KioError>;

/// Errors of a worker's lifecycle. A worker is named by the bits of its
/// identifier.
#[derive(Debug, Clone, Copy, PartialEq, Eq, Structural)]
pub enum WorkerError {
    /// The worker is running already.
    WorkerAlreadyRunningWithId(u128),
    /// The worker has been closed.
    WorkerAlreadyClosed(u128),
    /// The check for stalled jobs failed.
    FailedToCheckStalledJobs,
}

impl WorkerError {
    /// The error in words.
    pub open spec fn words(self) -> Seq<char> {
        match self {
            WorkerError::WorkerAlreadyRunningWithId(id) => uuid::hyphenated(id),
            WorkerError::WorkerAlreadyClosed(id) => uuid::hyphenated(id),
            WorkerError::FailedToCheckStalledJobs => "FailedToCheckStalledJobs"@,
        }
    }

    /// The error in words: the worker that it is about, where there is one.
    pub fn message(&self) -> (message: String)
        ensures
            message@ == self.words(),
    {
        match self {
            WorkerError::WorkerAlreadyRunningWithId(id) => uuid_text(*id),
            WorkerError::WorkerAlreadyClosed(id) => uuid_text(*id),
            WorkerError::FailedToCheckStalledJobs => String::from_str("FailedToCheckStalledJobs"),
        }
    }
}

/// Errors of queue-level operations.
#[derive(Debug, Clone, Copy, PartialEq, Eq, Structural)]
pub enum QueueError {
    /// A stored event mode is none that is known.
    UnKnownEventMode,
    /// The queue could not be obliterated.
    FailedToObliterate,
    /// The queue cannot be obliterated while jobs are active.
    CantObliterateWhileJobsActive,
    /// The operation is not permitted while the queue is paused.
    CantOperateWhenPaused,
    /// The requested delay is below the smallest one allowed.
    DelayBelowAllowedLimit {
        /// The smallest delay allowed, in milliseconds.
        limit_ms: u64,
        /// The delay that was requested.
        current_ms: u64,
    },
}

impl QueueError {
    /// The error in words.
    pub open spec fn words(self) -> Seq<char> {
        match self {
            QueueError::UnKnownEventMode => "UnKnownEventMode"@,
            QueueError::FailedToObliterate => "FailedToObliterate"@,
            QueueError::CantObliterateWhileJobsActive => "CantObliterateWhileJobsActive"@,
            QueueError::CantOperateWhenPaused => "CantOperateWhenPaused"@,
            QueueError::DelayBelowAllowedLimit { limit_ms, current_ms } => {
                "DelayBelowAllowedLimit {limit:"@ + text::decimal_digits(limit_ms as nat)
                    + ", current: "@ + text::decimal_digits(current_ms as nat) + "}"@
            },
        }
    }

    /// The error in words.
    pub fn message(&self) -> (message: String)
        ensures
            message@ == self.words(),
    {
        match self {
            QueueError::UnKnownEventMode => String::from_str("UnKnownEventMode"),
            QueueError::FailedToObliterate => String::from_str("FailedToObliterate"),
            QueueError::CantObliterateWhileJobsActive => String::from_str(
                "CantObliterateWhileJobsActive",
            ),
            QueueError::CantOperateWhenPaused => String::from_str("CantOperateWhenPaused"),
            QueueError::DelayBelowAllowedLimit { limit_ms, current_ms } => {
                let mut message = String::from_str("DelayBelowAllowedLimit {limit:");
                message.append(decimal(*limit_ms).as_str());
                message.append(", current: ");
                message.append(decimal(*current_ms).as_str());
                message.append("}");
                message
            },
        }
    }
}

/// Errors of operations on one job.
#[derive(Debug, Clone, Copy, PartialEq, Eq, Structural)]
pub enum JobError {
    /// The job does not exist in the store.
    JobNotFound,
    /// The job has no lock.
    JobLockNotExist,
    /// The job is not in the state that the operation needs.
    JobNotInState,
    /// The job has dependencies that are not resolved.
    JobPendingDependencies,
    /// The parent of the job does not exist.
    ParentJobNotExist,
    /// The lock is held with another token.
    JobLockMismatch,
    /// The job's scheduled time has passed.
    MissedDelayDeadline,
}

impl JobError {
    /// The error's number.
    pub open spec fn number(self) -> int {
        match self {
            JobError::JobNotFound => -1,
            JobError::JobLockNotExist => -2,
            JobError::JobNotInState => -3,
            JobError::JobPendingDependencies => -4,
            JobError::ParentJobNotExist => -5,
            JobError::JobLockMismatch => -6,
            JobError::MissedDelayDeadline => -7,
        }
    }

    /// The error's number.
    pub fn code(&self) -> (code: i8)
        ensures
            code == self.number(),
    {
        match self {
            JobError::JobNotFound => -1,
            JobError::JobLockNotExist => -2,
            JobError::JobNotInState => -3,
            JobError::JobPendingDependencies => -4,
            JobError::ParentJobNotExist => -5,
            JobError::JobLockMismatch => -6,
            JobError::MissedDelayDeadline => -7,
        }
    }

    /// The error in words.
    pub open spec fn words(self) -> Seq<char> {
        match self {
            JobError::JobNotFound => "The job does not exist"@,
            JobError::JobLockNotExist => "The job lock does not exist"@,
            JobError::JobNotInState => "The job is not in the expected state"@,
            JobError::JobPendingDependencies => "The job has pending dependencies"@,
            JobError::ParentJobNotExist => "The parent job does not exist"@,
            JobError::JobLockMismatch => "The job lock does not match"@,
            JobError::MissedDelayDeadline => "Job has missed delay deadline"@,
        }
    }

    /// The error in words.
    pub fn message(&self) -> (message: &'static str)
        ensures
            message@ == self.words(),
    {
        match self {
            JobError::JobNotFound => "The job does not exist",
            JobError::JobLockNotExist => "The job lock does not exist",
            JobError::JobNotInState => "The job is not in the expected state",
            JobError::JobPendingDependencies => "The job has pending dependencies",
            JobError::ParentJobNotExist => "The parent job does not exist",
            JobError::JobLockMismatch => "The job lock does not match",
            JobError::MissedDelayDeadline => "Job has missed delay deadline",
        }
    }
}

/// Errors of operations on one job have different numbers.
pub proof fn law_job_error_numbers_differ(a: JobError, b: JobError)
    requires
        a.number() == b.number(),
    ensures
        a == b,
{
}

/// An error in words says what the error inside says; the errors with a text of their
/// own say that text, some with words in front of it.
pub proof fn law_error_says_what_happened(
    queue: QueueError,
    worker: WorkerError,
    job: JobError,
    cron: CronError,
    words: String,
    other: String,
)
    ensures
        KioError::QueueError(queue).words() == queue.words(),
        KioError::WorkerError(worker).words() == worker.words(),
        KioError::JobError(job).words() == job.words(),
        KioError::CronerError(cron).words() == cron.message@,
        KioError::JsonError(words).words() == words@,
        KioError::IoError(words).words() == words@,
        KioError::ParseIntError(words).words() == words@,
        KioError::GeneralError(words).words() == words@,
        KioError::JoinError(words).words() == words@,
        KioError::EmitterError(words).words() == "Emitter: "@ + words@,
        (KioError::ConversionError { from: words, to: other }).words()
            == "Failed to Convert: from "@ + words@ + " to "@ + other@,
{
}

/// The errors of a worker name the worker: two that say the same of two workers are
/// about one.
pub proof fn law_worker_errors_name_the_worker(a: u128, b: u128)
    ensures
        WorkerError::WorkerAlreadyRunningWithId(a).words()
            == WorkerError::WorkerAlreadyRunningWithId(b).words() ==> a == b,
        WorkerError::WorkerAlreadyClosed(a).words() == WorkerError::WorkerAlreadyClosed(b).words()
            ==> a == b,
        WorkerError::WorkerAlreadyClosed(a).words() == uuid::hyphenated(a),
        WorkerError::WorkerAlreadyRunningWithId(a).words() == uuid::hyphenated(a),
{
    if uuid::hyphenated(a) == uuid::hyphenated(b) {
        uuid::law_texts_tell_identifiers_apart(a, b);
    }
}

/// The errors of a job are told apart by their numbers, which go down from minus one in
/// their order, and a job that is not found is the first of them.
pub proof fn law_job_errors_are_numbered(error: JobError)
    ensures
        -7 <= error.number() <= -1,
        JobError::JobNotFound.number() == -1,
        JobError::JobLockNotExist.number() == -2,
        JobError::JobNotInState.number() == -3,
        JobError::JobPendingDependencies.number() == -4,
        JobError::ParentJobNotExist.number() == -5,
        JobError::JobLockMismatch.number() == -6,
        JobError::MissedDelayDeadline.number() == -7,
{
}

/// A refused delay says the smallest one and the one that was asked for, in that order.
pub proof fn law_refused_delay_says_both(limit_ms: u64, current_ms: u64)
    ensures
        ({
            let words = (QueueError::DelayBelowAllowedLimit { limit_ms, current_ms }).words();
            let limit = text::decimal_digits(limit_ms as nat);
            let current = text::decimal_digits(current_ms as nat);
            let head = "DelayBelowAllowedLimit {limit:"@;
            let mid = ", current: "@;
            &&& words.subrange(head.len() as int, head.len() as int + limit.len()) == limit
            &&& words.subrange(
                head.len() as int + limit.len() + mid.len(),
                head.len() as int + limit.len() + mid.len() + current.len(),
            ) == current
        }),
{
    let words = (QueueError::DelayBelowAllowedLimit { limit_ms, current_ms }).words();
    let limit = text::decimal_digits(limit_ms as nat);
    let current = text::decimal_digits(current_ms as nat);
    let head = "DelayBelowAllowedLimit {limit:"@;
    let mid = ", current: "@;
    assert(words.subrange(head.len() as int, head.len() as int + limit.len()) =~= limit);
    assert(words.subrange(
        head.len() as int + limit.len() + mid.len(),
        head.len() as int + limit.len() + mid.len() + current.len(),
    ) =~= current);
}

} // verus!
