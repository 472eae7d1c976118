//! Queue options, field updates and the event mode.
use crate::error::QueueError;
use crate::job::{
    BackOffJobOptions, FailedDetails, JobMetrics, JobState, JobToken, RemoveOnCompletionOrFailure,
    Repeat, Trace,
};
use vstd::prelude::*;

verus! {

/// The outcome of one invocation of the processor.
#[derive(Debug)]
pub enum ProcessedResult<R> {
    /// The processor failed.
    Failed(FailedDetails),
    /// The processor returned a value; the metrics say how long it took.
    Success(R, JobMetrics),
}

/// A field update of a job record.
#[derive(Debug)]
pub enum JobField<R> {
    /// Lock token.
    Token(JobToken),
    /// Outcome of the processor.
    Payload(ProcessedResult<R>),
    /// Unix time in microseconds at which the processor started.
    ProcessedOn(u64),
    /// Unix time in microseconds at which the job reached a terminal state.
    FinishedOn(u64),
    /// New lifecycle state.
    State(JobState),
    /// Stack trace of a failure.
    BackTrace(Trace),
}

impl<R> JobField<R> {
    /// The name of the field in the store.
    pub open spec fn words(self) -> Seq<char> {
        match self {
            JobField::Token(_) => "token"@,
            JobField::Payload(ProcessedResult::Success(_, _)) => "returnedValue"@,
            JobField::Payload(ProcessedResult::Failed(_)) => "failedReason"@,
            JobField::ProcessedOn(_) => "processedOn"@,
            JobField::FinishedOn(_) => "finishedOn"@,
            JobField::State(_) => "state"@,
            JobField::BackTrace(_) => "stackTrace"@,
        }
    }

    /// The name of the field in the store.
    pub fn name(&self) -> (name: &'static str)
        ensures
            name@ == self.words(),
    {
        match self {
            JobField::Token(_) => "token",
            JobField::Payload(processed_result) => match processed_result {
                ProcessedResult::Success(_, _) => "returnedValue",
                ProcessedResult::Failed(_) => "failedReason",
            },
            JobField::ProcessedOn(_) => "processedOn",
            JobField::FinishedOn(_) => "finishedOn",
            JobField::State(_) => "state",
            JobField::BackTrace(_) => "stackTrace",
        }
    }
}

/// How events are published and consumed.
#[derive(Debug, Clone, Copy, PartialEq, Eq, Structural)]
pub enum QueueEventMode {
    /// Broadcast only: who connects later does not receive the event.
    PubSub,
    /// Persistent stream: past events can be replayed.
    Stream,
}

impl Default for QueueEventMode {
    /// The persistent stream.
    fn default() -> (mode: Self)
        ensures
            mode == QueueEventMode::Stream,
    {
        QueueEventMode::Stream
    }
}

impl QueueEventMode {
    /// The byte that stands for the mode.
    pub open spec fn number(self) -> u8 {
        match self {
            QueueEventMode::PubSub => 1,
            QueueEventMode::Stream => 0,
        }
    }

    /// The byte that stands for the mode.
    pub fn as_u8(&self) -> (byte: u8)
        ensures
            byte == self.number(),
    {
        match self {
            QueueEventMode::PubSub => 1,
            QueueEventMode::Stream => 0,
        }
    }

    /// The mode that a stored byte stands for; streams for a byte that stands for
    /// none, or where nothing is stored.
    pub open spec fn stored(byte: Option<u8>) -> QueueEventMode {
        if byte == Some(1u8) {
            QueueEventMode::PubSub
        } else {
            QueueEventMode::Stream
        }
    }

    /// The mode that a stored byte stands for; the default for a byte that
    /// stands for none, or where nothing is stored.
    pub fn from_stored(byte: Option<u8>) -> (mode: Self)
        ensures
            mode == Self::stored(byte),
    {
        let value: u8 = match byte {
            Some(byte) => byte,
            None => 0,
        };
        match QueueEventMode::try_from(value) {
            Ok(mode) => mode,
            Err(_) => QueueEventMode::default(),
        }
    }
}

impl TryFrom<u8> for QueueEventMode {
    type Error = QueueError;

    fn try_from(value: u8) -> (mode: Result<Self, QueueError>) {
        match value {
            1 => Ok(QueueEventMode::PubSub),
            0 => Ok(QueueEventMode::Stream),
            _ => Err(QueueError::UnKnownEventMode),
        }
    }
}

impl vstd::std_specs::convert::TryFromSpecImpl<u8> for QueueEventMode {
    open spec fn obeys_try_from_spec() -> bool {
        true
    }

    open spec fn try_from_spec(value: u8) -> Result<Self, QueueError> {
        if value == 1 {
            Ok(QueueEventMode::PubSub)
        } else if value == 0 {
            Ok(QueueEventMode::Stream)
        } else {
            Err(QueueError::UnKnownEventMode)
        }
    }
}

/// The byte of a mode leads back to the mode.
pub proof fn law_event_mode_byte(mode: QueueEventMode)
    ensures
        <QueueEventMode as vstd::std_specs::convert::TryFromSpec<u8>>::try_from_spec(mode.number())
            == Ok::<QueueEventMode, QueueError>(mode),
{
}

/// How a job is retried after a failure or a completion.
#[derive(Debug)]
pub enum RetryOptions<'a> {
    /// A failed job, with its backoff.
    Failed(&'a BackOffJobOptions),
    /// A job that repeats.
    WithRepeat(&'a Repeat),
}

impl<'a> From<&'a BackOffJobOptions> for RetryOptions<'a> {
    fn from(value: &'a BackOffJobOptions) -> (opts: Self) {
        RetryOptions::Failed(value)
    }
}

impl<'a> vstd::std_specs::convert::FromSpecImpl<&'a BackOffJobOptions> for RetryOptions<'a> {
    open spec fn obeys_from_spec() -> bool {
        true
    }

    open spec fn from_spec(value: &'a BackOffJobOptions) -> Self {
        RetryOptions::Failed(value)
    }
}

impl<'a> From<&'a Repeat> for RetryOptions<'a> {
    fn from(value: &'a Repeat) -> (opts: Self) {
        RetryOptions::WithRepeat(value)
    }
}

impl<'a> vstd::std_specs::convert::FromSpecImpl<&'a Repeat> for RetryOptions<'a> {
    open spec fn obeys_from_spec() -> bool {
        true
    }

    open spec fn from_spec(value: &'a Repeat) -> Self {
        RetryOptions::WithRepeat(value)
    }
}

/// Queue-level configuration.
#[derive(Debug)]
pub struct QueueOpts {
    /// Retention of failed jobs. `None` keeps them forever.
    pub remove_on_fail: Option<RemoveOnCompletionOrFailure>,
    /// Retention of completed jobs. `None` keeps them forever.
    pub remove_on_complete: Option<RemoveOnCompletionOrFailure>,
    /// Number of attempts for jobs that do not say.
    pub attempts: u64,
    /// Backoff for jobs that do not say.
    pub default_backoff: Option<BackOffJobOptions>,
    /// How events are delivered.
    pub event_mode: Option<QueueEventMode>,
    /// Repeat policy for jobs that do not say.
    pub repeat: Option<Repeat>,
}

impl Default for QueueOpts {
    /// One attempt, stream events, nothing else.
    fn default() -> (opts: Self)
        ensures
            opts == (QueueOpts {
                event_mode: Some(QueueEventMode::Stream),
                remove_on_fail: None,
                remove_on_complete: None,
                repeat: None,
                attempts: 1,
                default_backoff: None,
            }),
    {
        QueueOpts {
            event_mode: Some(QueueEventMode::default()),
            remove_on_fail: None,
            remove_on_complete: None,
            repeat: None,
            attempts: 1,
            default_backoff: None,
        }
    }
}

impl Clone for QueueOpts {
    fn clone(&self) -> (res: Self)
        ensures
            res == *self,
    {
        let default_backoff = match &self.default_backoff {
            Some(backoff) => Some(backoff.clone()),
            None => None,
        };
        let repeat = match &self.repeat {
            Some(repeat) => Some(repeat.clone()),
            None => None,
        };
        QueueOpts {
            event_mode: self.event_mode,
            remove_on_fail: self.remove_on_fail,
            remove_on_complete: self.remove_on_complete,
            repeat,
            attempts: self.attempts,
            default_backoff,
        }
    }
}

/// A stored byte that stands for a mode gives that mode, any other byte is refused, and
/// the two modes have different bytes.
pub proof fn law_modes_have_their_bytes(byte: u8)
    ensures
        QueueEventMode::PubSub.number() == 1,
        QueueEventMode::Stream.number() == 0,
        <QueueEventMode as vstd::std_specs::convert::TryFromSpec<u8>>::try_from_spec(byte) is Ok
            <==> byte == 0 || byte == 1,
        byte > 1 ==> <QueueEventMode as vstd::std_specs::convert::TryFromSpec<u8>>::try_from_spec(
            byte,
        ) == Err::<QueueEventMode, QueueError>(QueueError::UnKnownEventMode),
{
}

/// Each update of a job's record is written under the name of its field: the value that
/// a processor returned and the failure it ended with have names of their own, and so
/// has everything else, so that no update overwrites another's field.
pub proof fn law_fields_have_their_names<R>(
    token: JobToken,
    details: FailedDetails,
    value: R,
    metrics: JobMetrics,
    micros: u64,
    state: JobState,
    trace: Trace,
)
    ensures
        JobField::<R>::Token(token).words() == "token"@,
        JobField::<R>::Payload(ProcessedResult::Failed(details)).words() == "failedReason"@,
        JobField::Payload(ProcessedResult::Success(value, metrics)).words() == "returnedValue"@,
        JobField::<R>::ProcessedOn(micros).words() == "processedOn"@,
        JobField::<R>::FinishedOn(micros).words() == "finishedOn"@,
        JobField::<R>::State(state).words() == "state"@,
        JobField::<R>::BackTrace(trace).words() == "stackTrace"@,
{
}

/// A failed job is retried with its backoff, and a job that repeats with its policy.
pub proof fn law_conversions_keep_the_retry<'a>(backoff: &'a BackOffJobOptions, repeat: &'a Repeat)
    ensures
        <RetryOptions<'a> as vstd::std_specs::convert::FromSpec<&'a BackOffJobOptions>>::from_spec(
            backoff,
        ) == RetryOptions::Failed(backoff),
        <RetryOptions<'a> as vstd::std_specs::convert::FromSpec<&'a Repeat>>::from_spec(repeat)
            == RetryOptions::WithRepeat(repeat),
{
}

/// A mode that was stored is read back; a byte that stands for no mode, and nothing at
/// all, are read as streams.
pub proof fn law_stored_mode_is_read_back(mode: QueueEventMode, byte: Option<u8>)
    ensures
        QueueEventMode::stored(Some(mode.number())) == mode,
        (forall|m: QueueEventMode| Some((#[trigger] m.number())) != byte)
            ==> QueueEventMode::stored(byte) == QueueEventMode::Stream,
{
    assert(QueueEventMode::PubSub.number() == 1);
}

} // verus!
