//! Job records as they are read from the fields of a hash.
use crate::error::{KioError, KioResult};
use crate::job::{FailedDetails, Job, JobOptions, JobState, JobToken, Trace};
use crate::outside::json::{
    self, read_number, read_optional_number, read_optional_text, read_text, read_texts,
};
use crate::time::{self, Dt, NANOS_PER_MICRO};
use crate::utils::sequences::copy_of;
use crate::utils::text::same_text;
use vstd::prelude::*;

verus! {

/// A field of a job's hash.
#[derive(Debug, Clone, Copy, PartialEq, Eq, Structural)]
pub enum JobHashField {
    /// The job's id.
    Id,
    /// When the job was created, in microseconds.
    Timestamp,
    /// The options.
    Opts,
    /// The label.
    Name,
    /// The queue.
    QueueName,
    /// The lifecycle state.
    State,
    /// The token of the lock.
    Token,
    /// The progress.
    Progress,
    /// How many attempts were made.
    AttemptsMade,
    /// The delay in milliseconds.
    Delay,
    /// The priority.
    Priority,
    /// The input.
    Data,
    /// The result.
    ReturnedValue,
    /// The traces of failures.
    StackTrace,
    /// The log lines.
    Logs,
    /// Details of the final failure.
    FailedReason,
    /// When a worker began, in microseconds.
    ProcessedOn,
    /// When the job ended, in microseconds.
    FinishedOn,
    /// How often the job stalled.
    StalledCounter,
}

/// The value of a field.
#[derive(Debug)]
pub enum JobValue<D, R, P> {
    /// The job's id.
    Id(Option<u64>),
    /// When the job was created, in microseconds.
    Timestamp(Option<u64>),
    /// The options.
    Opts(JobOptions),
    /// The label.
    Name(String),
    /// The queue.
    QueueName(Option<String>),
    /// The lifecycle state.
    State(JobState),
    /// The token of the lock.
    Token(Option<JobToken>),
    /// The progress.
    Progress(Option<P>),
    /// How many attempts were made.
    AttemptsMade(u64),
    /// The delay in milliseconds.
    Delay(u64),
    /// The priority.
    Priority(u64),
    /// The input.
    Data(Option<D>),
    /// The result.
    ReturnedValue(Option<R>),
    /// The traces of failures.
    StackTrace(Vec<Trace>),
    /// The log lines.
    Logs(Vec<String>),
    /// Details of the final failure.
    FailedReason(Option<FailedDetails>),
    /// When a worker began, in microseconds.
    ProcessedOn(Option<u64>),
    /// When the job ended, in microseconds.
    FinishedOn(Option<u64>),
    /// How often the job stalled.
    StalledCounter(u64),
}

impl JobHashField {
    /// The field that a key names.
    pub open spec fn named(key: Seq<char>) -> Option<JobHashField> {
        if key == "id"@ {
            Some(JobHashField::Id)
        } else if key == "timestamp"@ {
            Some(JobHashField::Timestamp)
        } else if key == "opts"@ {
            Some(JobHashField::Opts)
        } else if key == "name"@ {
            Some(JobHashField::Name)
        } else if key == "queuename"@ || key == "queueName"@ {
            Some(JobHashField::QueueName)
        } else if key == "state"@ {
            Some(JobHashField::State)
        } else if key == "token"@ {
            Some(JobHashField::Token)
        } else if key == "progress"@ {
            Some(JobHashField::Progress)
        } else if key == "attemptsmade"@ || key == "attemptsMade"@ {
            Some(JobHashField::AttemptsMade)
        } else if key == "delay"@ {
            Some(JobHashField::Delay)
        } else if key == "priority"@ {
            Some(JobHashField::Priority)
        } else if key == "data"@ {
            Some(JobHashField::Data)
        } else if key == "returnedvalue"@ || key == "returnedValue"@ {
            Some(JobHashField::ReturnedValue)
        } else if key == "stacktrace"@ || key == "stackTrace"@ {
            Some(JobHashField::StackTrace)
        } else if key == "logs"@ {
            Some(JobHashField::Logs)
        } else if key == "failedreason"@ || key == "failedReason"@ {
            Some(JobHashField::FailedReason)
        } else if key == "processedon"@ || key == "processedOn"@ {
            Some(JobHashField::ProcessedOn)
        } else if key == "finishedon"@ || key == "finishedOn"@ {
            Some(JobHashField::FinishedOn)
        } else if key == "stalledcounter"@ || key == "stalledCounter"@ {
            Some(JobHashField::StalledCounter)
        } else {
            None
        }
    }

    /// The field that a key names.
    pub fn from_key(key: &str) -> (field: Option<JobHashField>)
        ensures
            field == Self::named(key@),
    {
        if same_text(key, "id") {
            Some(JobHashField::Id)
        } else if same_text(key, "timestamp") {
            Some(JobHashField::Timestamp)
        } else if same_text(key, "opts") {
            Some(JobHashField::Opts)
        } else if same_text(key, "name") {
            Some(JobHashField::Name)
        } else if same_text(key, "queuename") || same_text(key, "queueName") {
            Some(JobHashField::QueueName)
        } else if same_text(key, "state") {
            Some(JobHashField::State)
        } else if same_text(key, "token") {
            Some(JobHashField::Token)
        } else if same_text(key, "progress") {
            Some(JobHashField::Progress)
        } else if same_text(key, "attemptsmade") || same_text(key, "attemptsMade") {
            Some(JobHashField::AttemptsMade)
        } else if same_text(key, "delay") {
            Some(JobHashField::Delay)
        } else if same_text(key, "priority") {
            Some(JobHashField::Priority)
        } else if same_text(key, "data") {
            Some(JobHashField::Data)
        } else if same_text(key, "returnedvalue") || same_text(key, "returnedValue") {
            Some(JobHashField::ReturnedValue)
        } else if same_text(key, "stacktrace") || same_text(key, "stackTrace") {
            Some(JobHashField::StackTrace)
        } else if same_text(key, "logs") {
            Some(JobHashField::Logs)
        } else if same_text(key, "failedreason") || same_text(key, "failedReason") {
            Some(JobHashField::FailedReason)
        } else if same_text(key, "processedon") || same_text(key, "processedOn") {
            Some(JobHashField::ProcessedOn)
        } else if same_text(key, "finishedon") || same_text(key, "finishedOn") {
            Some(JobHashField::FinishedOn)
        } else if same_text(key, "stalledcounter") || same_text(key, "stalledCounter") {
            Some(JobHashField::StalledCounter)
        } else {
            None
        }
    }
}

/// The field holds a plain value: a number, a text, or a list of texts.
pub open spec fn is_plain(field: JobHashField) -> bool {
    match field {
        JobHashField::Id
        | JobHashField::Timestamp
        | JobHashField::Name
        | JobHashField::QueueName
        | JobHashField::AttemptsMade
        | JobHashField::Delay
        | JobHashField::Priority
        | JobHashField::Logs
        | JobHashField::ProcessedOn
        | JobHashField::FinishedOn
        | JobHashField::StalledCounter => true,
        _ => false,
    }
}

/// The JSON in `bytes` is a value for the plain field.
pub open spec fn is_readable(field: JobHashField, bytes: Seq<u8>) -> bool {
    match field {
        JobHashField::Id
        | JobHashField::Timestamp
        | JobHashField::ProcessedOn
        | JobHashField::FinishedOn => json::json_optional_number(bytes) is Some,
        JobHashField::AttemptsMade
        | JobHashField::Delay
        | JobHashField::Priority
        | JobHashField::StalledCounter => json::json_number(bytes) is Some,
        JobHashField::Name => json::json_text(bytes) is Some,
        JobHashField::QueueName => json::json_optional_text(bytes) is Some,
        JobHashField::Logs => json::json_texts(bytes) is Some,
        _ => false,
    }
}

/// `value` is what the JSON in `bytes` gives the plain field.
pub open spec fn is_value<D, R, P>(
    field: JobHashField,
    bytes: Seq<u8>,
    value: JobValue<D, R, P>,
) -> bool {
    match field {
        JobHashField::Id => value == JobValue::<D, R, P>::Id(json::json_optional_number(bytes)->0),
        JobHashField::Timestamp => value == JobValue::<D, R, P>::Timestamp(
            json::json_optional_number(bytes)->0,
        ),
        JobHashField::ProcessedOn => value == JobValue::<D, R, P>::ProcessedOn(
            json::json_optional_number(bytes)->0,
        ),
        JobHashField::FinishedOn => value == JobValue::<D, R, P>::FinishedOn(
            json::json_optional_number(bytes)->0,
        ),
        JobHashField::AttemptsMade => value == JobValue::<D, R, P>::AttemptsMade(
            json::json_number(bytes)->0,
        ),
        JobHashField::Delay => value == JobValue::<D, R, P>::Delay(json::json_number(bytes)->0),
        JobHashField::Priority => value == JobValue::<D, R, P>::Priority(
            json::json_number(bytes)->0,
        ),
        JobHashField::StalledCounter => value == JobValue::<D, R, P>::StalledCounter(
            json::json_number(bytes)->0,
        ),
        JobHashField::Name => value matches JobValue::Name(name) && json::json_text(bytes) == Some(
            name@,
        ),
        JobHashField::QueueName => value matches JobValue::QueueName(name)
            && json::json_optional_text(bytes) == Some(
            match name {
                Some(name) => Some(name@),
                None => None,
            },
        ),
        JobHashField::Logs => value matches JobValue::Logs(lines) && json::json_texts(bytes)
            == Some(json::texts_of(lines@)),
        _ => false,
    }
}

/// Reads the value of a plain field from JSON; nothing for any other field.
pub fn read_plain<D, R, P>(field: JobHashField, bytes: Vec<u8>) -> (value: Option<
    KioResult<JobValue<D, R, P>>,
>)
    ensures
        value is Some <==> is_plain(field),
        value matches Some(Ok(value)) ==> is_readable(field, bytes@) && is_value(
            field,
            bytes@,
            value,
        ),
        value matches Some(Err(error)) ==> !is_readable(field, bytes@) && error is JsonError,
{
    let value = match field {
        JobHashField::Id => match read_optional_number(bytes) {
            Ok(number) => Ok(JobValue::Id(number)),
            Err(message) => Err(KioError::JsonError(message)),
        },
        JobHashField::Timestamp => match read_optional_number(bytes) {
            Ok(number) => Ok(JobValue::Timestamp(number)),
            Err(message) => Err(KioError::JsonError(message)),
        },
        JobHashField::ProcessedOn => match read_optional_number(bytes) {
            Ok(number) => Ok(JobValue::ProcessedOn(number)),
            Err(message) => Err(KioError::JsonError(message)),
        },
        JobHashField::FinishedOn => match read_optional_number(bytes) {
            Ok(number) => Ok(JobValue::FinishedOn(number)),
            Err(message) => Err(KioError::JsonError(message)),
        },
        JobHashField::AttemptsMade => match read_number(bytes) {
            Ok(number) => Ok(JobValue::AttemptsMade(number)),
            Err(message) => Err(KioError::JsonError(message)),
        },
        JobHashField::Delay => match read_number(bytes) {
            Ok(number) => Ok(JobValue::Delay(number)),
            Err(message) => Err(KioError::JsonError(message)),
        },
        JobHashField::Priority => match read_number(bytes) {
            Ok(number) => Ok(JobValue::Priority(number)),
            Err(message) => Err(KioError::JsonError(message)),
        },
        JobHashField::StalledCounter => match read_number(bytes) {
            Ok(number) => Ok(JobValue::StalledCounter(number)),
            Err(message) => Err(KioError::JsonError(message)),
        },
        JobHashField::Name => match read_text(bytes) {
            Ok(text) => Ok(JobValue::Name(text)),
            Err(message) => Err(KioError::JsonError(message)),
        },
        JobHashField::QueueName => match read_optional_text(bytes) {
            Ok(text) => Ok(JobValue::QueueName(text)),
            Err(message) => Err(KioError::JsonError(message)),
        },
        JobHashField::Logs => match read_texts(bytes) {
            Ok(lines) => Ok(JobValue::Logs(lines)),
            Err(message) => Err(KioError::JsonError(message)),
        },
        _ => return None,
    };
    Some(value)
}

/// The point in time, in nanoseconds, at `micros` microseconds of Unix time; the
/// epoch where there are none, or where the calendar does not reach.
pub open spec fn created_at(micros: Option<u64>) -> int {
    match micros {
        Some(micros) => if time::in_calendar((micros as i64) * NANOS_PER_MICRO) {
            (micros as i64) * NANOS_PER_MICRO
        } else {
            0
        },
        None => 0,
    }
}

/// The point in time, in nanoseconds, at `micros` microseconds of Unix time;
/// nothing where there are none, or where the calendar does not reach.
pub open spec fn reached_at(micros: Option<u64>) -> Option<int> {
    match micros {
        Some(micros) => if time::in_calendar((micros as i64) * NANOS_PER_MICRO) {
            Some((micros as i64) * NANOS_PER_MICRO)
        } else {
            None
        },
        None => None,
    }
}

/// The nanoseconds of a point in time, where there is one.
pub open spec fn nanos_of(dt: Option<Dt>) -> Option<int> {
    match dt {
        Some(dt) => Some(dt@),
        None => None,
    }
}

/// `new` is the job `old` after a field took over its value.
pub open spec fn value_set<D, R, P>(
    old: Job<D, R, P>,
    value: JobValue<D, R, P>,
    new: Job<D, R, P>,
) -> bool {
    match value {
        JobValue::Id(id) => new == (Job { id, ..old }),
        JobValue::Timestamp(micros) => new == (Job { ts: new.ts, ..old }) && new.ts@
            == created_at(micros),
        JobValue::Opts(opts) => new == (Job { opts, ..old }),
        JobValue::Name(name) => new == (Job { name, ..old }),
        JobValue::QueueName(queue_name) => new == (Job { queue_name, ..old }),
        JobValue::State(state) => new == (Job { state, ..old }),
        JobValue::Token(token) => new == (Job { token, ..old }),
        JobValue::Progress(progress) => new == (Job { progress, ..old }),
        JobValue::AttemptsMade(attempts_made) => new == (Job { attempts_made, ..old }),
        JobValue::Delay(delay) => new == (Job { delay, ..old }),
        JobValue::Priority(priority) => new == (Job { priority, ..old }),
        JobValue::Data(data) => new == (Job { data, ..old }),
        JobValue::ReturnedValue(returned_value) => new == (Job { returned_value, ..old }),
        JobValue::StackTrace(stack_trace) => new == (Job { stack_trace, ..old }),
        JobValue::Logs(logs) => new == (Job { logs, ..old }),
        JobValue::FailedReason(failed_reason) => new == (Job { failed_reason, ..old }),
        JobValue::ProcessedOn(micros) => new == (Job { processed_on: new.processed_on, ..old })
            && nanos_of(new.processed_on) == reached_at(micros),
        JobValue::FinishedOn(micros) => new == (Job { finished_on: new.finished_on, ..old })
            && nanos_of(new.finished_on) == reached_at(micros),
        JobValue::StalledCounter(stalled_counter) => new == (Job { stalled_counter, ..old }),
    }
}

/// `new` is the job `old` after fields took over their values, one after the
/// other.
pub open spec fn values_set<D, R, P>(
    old: Job<D, R, P>,
    values: Seq<JobValue<D, R, P>>,
    new: Job<D, R, P>,
) -> bool
    decreases values.len(),
{
    if values.len() == 0 {
        new == old
    } else {
        exists|mid: Job<D, R, P>|
            values_set(old, values.drop_last(), mid) && #[trigger] value_set(
                mid,
                values.last(),
                new,
            )
    }
}

/// The point in time, where there is one that the calendar reaches.
fn reached(micros: Option<u64>) -> (dt: Option<Dt>)
    ensures
        nanos_of(dt) == reached_at(micros),
{
    match micros {
        Some(micros) => Dt::from_timestamp_micros(micros as i64),
        None => None,
    }
}

/// Takes over the value of one field.
fn set_value<D, R, P>(job: &mut Job<D, R, P>, value: JobValue<D, R, P>)
    ensures
        value_set(*old(job), value, *final(job)),
{
    match value {
        JobValue::Id(id) => job.id = id,
        JobValue::Timestamp(micros) => {
            job.ts = match reached(micros) {
                Some(ts) => ts,
                None => Dt::default(),
            };
        },
        JobValue::Opts(opts) => job.opts = opts,
        JobValue::Name(name) => job.name = name,
        JobValue::QueueName(queue_name) => job.queue_name = queue_name,
        JobValue::State(state) => job.state = state,
        JobValue::Token(token) => job.token = token,
        JobValue::Progress(progress) => job.progress = progress,
        JobValue::AttemptsMade(attempts_made) => job.attempts_made = attempts_made,
        JobValue::Delay(delay) => job.delay = delay,
        JobValue::Priority(priority) => job.priority = priority,
        JobValue::Data(data) => job.data = data,
        JobValue::ReturnedValue(returned_value) => job.returned_value = returned_value,
        JobValue::StackTrace(stack_trace) => job.stack_trace = stack_trace,
        JobValue::Logs(logs) => job.logs = logs,
        JobValue::FailedReason(failed_reason) => job.failed_reason = failed_reason,
        JobValue::ProcessedOn(micros) => job.processed_on = reached(micros),
        JobValue::FinishedOn(micros) => job.finished_on = reached(micros),
        JobValue::StalledCounter(stalled_counter) => job.stalled_counter = stalled_counter,
    }
}

/// The job that the values of its fields, one after the other, make up.
pub fn job_from_values<D, R, P>(values: Vec<JobValue<D, R, P>>) -> (job: Job<D, R, P>)
    ensures
        exists|blank: Job<D, R, P>|
            blank.is_new(blank.ts, ""@, None, None, None) && #[trigger] values_set(
                blank,
                values@,
                job,
            ),
{
    let ghost all = values@;
    let mut job = Job::<D, R, P>::new("", None, None, None);
    let ghost blank = job;
    let mut values = values;
    let mut rest: Vec<JobValue<D, R, P>> = Vec::new();
    while values.len() > 0
        invariant
            values@ + rest@.reverse() =~= all,
        decreases values.len(),
    {
        if let Some(value) = values.pop() {
            rest.push(value);
        }
    }
    assert(rest@.reverse() =~= all);
    assert(all.take(0) =~= Seq::empty());
    while rest.len() > 0
        invariant
            rest@.len() <= all.len(),
            rest@ =~= all.skip(all.len() - rest@.len()).reverse(),
            values_set(blank, all.take(all.len() - rest@.len()), job),
        decreases rest.len(),
    {
        let ghost before = rest@;
        let ghost mid = job;
        if let Some(value) = rest.pop() {
            let ghost i = all.len() - before.len();
            assert(before[before.len() - 1] == all[i]);
            set_value(&mut job, value);
            proof {
                assert(all.take(i + 1).drop_last() =~= all.take(i));
                assert(all.take(i + 1).last() == value);
                assert(value_set(mid, all.take(i + 1).last(), job));
                assert(values_set(blank, all.take(i + 1), job));
                assert(all.len() - rest@.len() == i + 1);
            }
        }
    }
    assert(all.take(all.len() as int) =~= all);
    job
}

/// `result` is what the bytes of a field give: a plain value is read from JSON,
/// any other by `read_other`.
pub open spec fn field_read<
    D,
    R,
    P,
    F: Fn(JobHashField, Vec<u8>) -> KioResult<JobValue<D, R, P>>,
>(
    read_other: F,
    field: JobHashField,
    bytes: Vec<u8>,
    result: KioResult<JobValue<D, R, P>>,
) -> bool {
    if is_plain(field) {
        match result {
            Ok(value) => is_readable(field, bytes@) && is_value(field, bytes@, value),
            Err(error) => !is_readable(field, bytes@) && error is JsonError,
        }
    } else {
        exists|given: Vec<u8>|
            given@ == bytes@ && #[trigger] call_ensures(read_other, (field, given), result)
    }
}

/// `values` are the values of the fields of a hash, in the order of its pairs. A
/// pair whose key names no field is passed over.
pub open spec fn pairs_read<
    D,
    R,
    P,
    F: Fn(JobHashField, Vec<u8>) -> KioResult<JobValue<D, R, P>>,
>(
    read_other: F,
    pairs: Seq<(String, Vec<u8>)>,
    values: Seq<JobValue<D, R, P>>,
) -> bool
    decreases pairs.len(),
{
    if pairs.len() == 0 {
        values.len() == 0
    } else {
        match JobHashField::named(pairs.last().0@) {
            Some(field) => {
                &&& values.len() > 0
                &&& pairs_read(read_other, pairs.drop_last(), values.drop_last())
                &&& field_read(read_other, field, pairs.last().1, Ok(values.last()))
            },
            None => pairs_read(read_other, pairs.drop_last(), values),
        }
    }
}

/// The pairs before `at` were read, and the one at `at` names a field and gives
/// this error.
pub open spec fn stopped_at_pair<
    D,
    R,
    P,
    F: Fn(JobHashField, Vec<u8>) -> KioResult<JobValue<D, R, P>>,
>(
    read_other: F,
    pairs: Seq<(String, Vec<u8>)>,
    at: int,
    values: Seq<JobValue<D, R, P>>,
    error: KioError,
) -> bool {
    &&& 0 <= at < pairs.len()
    &&& pairs_read(read_other, pairs.take(at), values)
    &&& JobHashField::named(pairs[at].0@) matches Some(field) && field_read(
        read_other,
        field,
        pairs[at].1,
        Err::<JobValue<D, R, P>, KioError>(error),
    )
}

/// `result` is what the pairs of a hash give: the job that their values make up,
/// or the error of the first field that cannot be read.
pub open spec fn hash_read<
    D,
    R,
    P,
    F: Fn(JobHashField, Vec<u8>) -> KioResult<JobValue<D, R, P>>,
>(
    read_other: F,
    pairs: Seq<(String, Vec<u8>)>,
    result: KioResult<Job<D, R, P>>,
) -> bool {
    match result {
        Ok(job) => exists|blank: Job<D, R, P>, values: Seq<JobValue<D, R, P>>|
            blank.is_new(blank.ts, ""@, None, None, None) && pairs_read(
                read_other,
                pairs,
                values,
            ) && #[trigger] values_set(blank, values, job),
        Err(error) => exists|at: int, values: Seq<JobValue<D, R, P>>| #[trigger]
            stopped_at_pair(read_other, pairs, at, values, error),
    }
}

/// The job that the pairs of a hash hold, one after the other: plain values are
/// read from JSON, the others by `read_other`. Keys that name no field are passed
/// over, and the first field that cannot be read ends it.
pub fn job_from_hash<D, R, P, F: Fn(JobHashField, Vec<u8>) -> KioResult<JobValue<D, R, P>>>(
    pairs: Vec<(String, Vec<u8>)>,
    read_other: &F,
) -> (result: KioResult<Job<D, R, P>>)
    requires
        forall|field: JobHashField, bytes: Vec<u8>| #[trigger]
            call_requires(*read_other, (field, bytes)),
    ensures
        hash_read(*read_other, pairs@, result),
{
    let mut values: Vec<JobValue<D, R, P>> = Vec::new();
    let mut i: usize = 0;
    assert(pairs@.take(0) =~= Seq::empty());
    while i < pairs.len()
        invariant
            i <= pairs.len(),
            forall|field: JobHashField, bytes: Vec<u8>| #[trigger]
                call_requires(*read_other, (field, bytes)),
            pairs_read(*read_other, pairs@.take(i as int), values@),
        decreases pairs.len() - i,
    {
        proof {
            assert(pairs@.take(i + 1).drop_last() =~= pairs@.take(i as int));
            assert(pairs@.take(i + 1).last() == pairs@[i as int]);
        }
        if let Some(field) = JobHashField::from_key(pairs[i].0.as_str()) {
            let bytes = copy_of(&pairs[i].1);
            let result = match read_plain(field, bytes) {
                Some(result) => result,
                None => {
                    let bytes = copy_of(&pairs[i].1);
                    read_other(field, bytes)
                },
            };
            assert(field_read(*read_other, field, pairs@[i as int].1, result));
            match result {
                Ok(value) => {
                    let ghost before = values@;
                    values.push(value);
                    assert(values@.drop_last() =~= before);
                },
                Err(error) => {
                    assert(stopped_at_pair(*read_other, pairs@, i as int, values@, error));
                    return Err(error);
                },
            }
        }
        i += 1;
    }
    assert(pairs@.take(pairs@.len() as int) =~= pairs@);
    Ok(job_from_values(values))
}

/// The field that a value is for.
pub open spec fn field_of<D, R, P>(value: JobValue<D, R, P>) -> JobHashField {
    match value {
        JobValue::Id(_) => JobHashField::Id,
        JobValue::Timestamp(_) => JobHashField::Timestamp,
        JobValue::Opts(_) => JobHashField::Opts,
        JobValue::Name(_) => JobHashField::Name,
        JobValue::QueueName(_) => JobHashField::QueueName,
        JobValue::State(_) => JobHashField::State,
        JobValue::Token(_) => JobHashField::Token,
        JobValue::Progress(_) => JobHashField::Progress,
        JobValue::AttemptsMade(_) => JobHashField::AttemptsMade,
        JobValue::Delay(_) => JobHashField::Delay,
        JobValue::Priority(_) => JobHashField::Priority,
        JobValue::Data(_) => JobHashField::Data,
        JobValue::ReturnedValue(_) => JobHashField::ReturnedValue,
        JobValue::StackTrace(_) => JobHashField::StackTrace,
        JobValue::Logs(_) => JobHashField::Logs,
        JobValue::FailedReason(_) => JobHashField::FailedReason,
        JobValue::ProcessedOn(_) => JobHashField::ProcessedOn,
        JobValue::FinishedOn(_) => JobHashField::FinishedOn,
        JobValue::StalledCounter(_) => JobHashField::StalledCounter,
    }
}

/// A point in time without what is less than a microsecond.
pub open spec fn to_the_micro(nanos: int) -> int {
    nanos - nanos % (NANOS_PER_MICRO as int)
}

/// A point in time, where there is one, without what is less than a microsecond.
pub open spec fn reached_to_the_micro(dt: Option<Dt>) -> Option<int> {
    match dt {
        Some(dt) => Some(to_the_micro(dt@)),
        None => None,
    }
}

/// `value` is what the job holds in the field that the value is for. Points in
/// time are given in microseconds.
pub open spec fn is_held<D, R, P>(value: JobValue<D, R, P>, job: Job<D, R, P>) -> bool {
    match value {
        JobValue::Id(id) => id == job.id,
        JobValue::Timestamp(micros) => created_at(micros) == to_the_micro(job.ts@),
        JobValue::Opts(opts) => opts == job.opts,
        JobValue::Name(name) => name@ == job.name@,
        JobValue::QueueName(queue_name) => json::text_in(queue_name) == json::text_in(
            job.queue_name,
        ),
        JobValue::State(state) => state == job.state,
        JobValue::Token(token) => token == job.token,
        JobValue::Progress(progress) => progress == job.progress,
        JobValue::AttemptsMade(attempts_made) => attempts_made == job.attempts_made,
        JobValue::Delay(delay) => delay == job.delay,
        JobValue::Priority(priority) => priority == job.priority,
        JobValue::Data(data) => data == job.data,
        JobValue::ReturnedValue(returned_value) => returned_value == job.returned_value,
        JobValue::StackTrace(stack_trace) => stack_trace == job.stack_trace,
        JobValue::Logs(logs) => json::texts_of(logs@) == json::texts_of(job.logs@),
        JobValue::FailedReason(failed_reason) => failed_reason == job.failed_reason,
        JobValue::ProcessedOn(micros) => reached_at(micros) == reached_to_the_micro(
            job.processed_on,
        ),
        JobValue::FinishedOn(micros) => reached_at(micros) == reached_to_the_micro(
            job.finished_on,
        ),
        JobValue::StalledCounter(stalled_counter) => stalled_counter == job.stalled_counter,
    }
}

/// The job `read` agrees with `job` in a field; in a point in time, to the
/// microsecond.
pub open spec fn agrees<D, R, P>(
    field: JobHashField,
    read: Job<D, R, P>,
    job: Job<D, R, P>,
) -> bool {
    match field {
        JobHashField::Id => read.id == job.id,
        JobHashField::Timestamp => read.ts@ == to_the_micro(job.ts@),
        JobHashField::Opts => read.opts == job.opts,
        JobHashField::Name => read.name@ == job.name@,
        JobHashField::QueueName => json::text_in(read.queue_name) == json::text_in(job.queue_name),
        JobHashField::State => read.state == job.state,
        JobHashField::Token => read.token == job.token,
        JobHashField::Progress => read.progress == job.progress,
        JobHashField::AttemptsMade => read.attempts_made == job.attempts_made,
        JobHashField::Delay => read.delay == job.delay,
        JobHashField::Priority => read.priority == job.priority,
        JobHashField::Data => read.data == job.data,
        JobHashField::ReturnedValue => read.returned_value == job.returned_value,
        JobHashField::StackTrace => read.stack_trace == job.stack_trace,
        JobHashField::Logs => json::texts_of(read.logs@) == json::texts_of(job.logs@),
        JobHashField::FailedReason => read.failed_reason == job.failed_reason,
        JobHashField::ProcessedOn => nanos_of(read.processed_on) == reached_to_the_micro(
            job.processed_on,
        ),
        JobHashField::FinishedOn => nanos_of(read.finished_on) == reached_to_the_micro(
            job.finished_on,
        ),
        JobHashField::StalledCounter => read.stalled_counter == job.stalled_counter,
    }
}

/// `read` is the job, with its points in time to the microsecond.
pub open spec fn is_job_read_back<D, R, P>(read: Job<D, R, P>, job: Job<D, R, P>) -> bool {
    &&& read == (Job {
        ts: read.ts,
        processed_on: read.processed_on,
        finished_on: read.finished_on,
        name: read.name,
        queue_name: read.queue_name,
        logs: read.logs,
        ..job
    })
    &&& read.name@ == job.name@
    &&& json::text_in(read.queue_name) == json::text_in(job.queue_name)
    &&& json::texts_of(read.logs@) == json::texts_of(job.logs@)
    &&& read.ts@ == to_the_micro(job.ts@)
    &&& nanos_of(read.processed_on) == reached_to_the_micro(job.processed_on)
    &&& nanos_of(read.finished_on) == reached_to_the_micro(job.finished_on)
}

/// The values make up a job that agrees with `job` in every field that one of
/// them is for.
proof fn lemma_values_agree<D, R, P>(
    blank: Job<D, R, P>,
    values: Seq<JobValue<D, R, P>>,
    read: Job<D, R, P>,
    job: Job<D, R, P>,
)
    requires
        values_set(blank, values, read),
        forall|i: int| 0 <= i < values.len() ==> is_held(#[trigger] values[i], job),
    ensures
        forall|i: int|
            0 <= i < values.len() ==> agrees(field_of(#[trigger] values[i]), read, job),
    decreases values.len(),
{
    if values.len() > 0 {
        let rest = values.drop_last();
        let mid = choose|mid: Job<D, R, P>|
            values_set(blank, rest, mid) && #[trigger] value_set(mid, values.last(), read);
        assert forall|i: int| 0 <= i < rest.len() implies is_held(#[trigger] rest[i], job) by {
            assert(rest[i] == values[i]);
        }
        lemma_values_agree(blank, rest, mid, job);
        assert(is_held(values[values.len() - 1], job));
        assert forall|i: int| 0 <= i < values.len() implies agrees(
            field_of(#[trigger] values[i]),
            read,
            job,
        ) by {
            if i < rest.len() {
                assert(agrees(field_of(rest[i]), mid, job));
            }
        }
    }
}

/// A field that a key names has its value among those that were read.
proof fn lemma_pairs_cover<
    D,
    R,
    P,
    F: Fn(JobHashField, Vec<u8>) -> KioResult<JobValue<D, R, P>>,
>(
    read_other: F,
    pairs: Seq<(String, Vec<u8>)>,
    values: Seq<JobValue<D, R, P>>,
    at: int,
    field: JobHashField,
)
    requires
        reads_its_field(read_other),
        pairs_read(read_other, pairs, values),
        0 <= at < pairs.len(),
        JobHashField::named(pairs[at].0@) == Some(field),
    ensures
        exists|i: int| 0 <= i < values.len() && field_of(#[trigger] values[i]) == field,
    decreases pairs.len(),
{
    let last = JobHashField::named(pairs.last().0@);
    if at == pairs.len() - 1 {
        assert(field_of(values[values.len() - 1]) == field);
    } else {
        assert(pairs.drop_last()[at] == pairs[at]);
        if last is Some {
            lemma_pairs_cover(read_other, pairs.drop_last(), values.drop_last(), at, field);
            let i = choose|i: int|
                0 <= i < values.drop_last().len() && field_of(#[trigger] values.drop_last()[i])
                    == field;
            assert(values[i] == values.drop_last()[i]);
        } else {
            lemma_pairs_cover(read_other, pairs.drop_last(), values, at, field);
        }
    }
}

/// What `read_other` reads for a field is a value for that field.
pub open spec fn reads_its_field<
    D,
    R,
    P,
    F: Fn(JobHashField, Vec<u8>) -> KioResult<JobValue<D, R, P>>,
>(read_other: F) -> bool {
    forall|field: JobHashField, bytes: Vec<u8>, value: JobValue<D, R, P>| #[trigger]
        call_ensures(read_other, (field, bytes), Ok::<JobValue<D, R, P>, KioError>(value))
            ==> field_of(value) == field
}

/// Some key of the hash names the field.
pub open spec fn has_field(pairs: Seq<(String, Vec<u8>)>, field: JobHashField) -> bool {
    exists|i: int|
        0 <= i < pairs.len() && #[trigger] JobHashField::named(pairs[i].0@) == Some(field)
}

/// A job that agrees with another in every field is that job, with its points in
/// time to the microsecond.
proof fn lemma_all_agree<D, R, P>(read: Job<D, R, P>, job: Job<D, R, P>)
    requires
        forall|field: JobHashField| #[trigger] agrees(field, read, job),
    ensures
        is_job_read_back(read, job),
{
    assert(agrees(JobHashField::Id, read, job));
    assert(agrees(JobHashField::Timestamp, read, job));
    assert(agrees(JobHashField::Opts, read, job));
    assert(agrees(JobHashField::Name, read, job));
    assert(agrees(JobHashField::QueueName, read, job));
    assert(agrees(JobHashField::State, read, job));
    assert(agrees(JobHashField::Token, read, job));
    assert(agrees(JobHashField::Progress, read, job));
    assert(agrees(JobHashField::AttemptsMade, read, job));
    assert(agrees(JobHashField::Delay, read, job));
    assert(agrees(JobHashField::Priority, read, job));
    assert(agrees(JobHashField::Data, read, job));
    assert(agrees(JobHashField::ReturnedValue, read, job));
    assert(agrees(JobHashField::StackTrace, read, job));
    assert(agrees(JobHashField::Logs, read, job));
    assert(agrees(JobHashField::FailedReason, read, job));
    assert(agrees(JobHashField::ProcessedOn, read, job));
    assert(agrees(JobHashField::FinishedOn, read, job));
    assert(agrees(JobHashField::StalledCounter, read, job));
}

/// Some value is for the field.
pub open spec fn has_value<D, R, P>(
    values: Seq<JobValue<D, R, P>>,
    field: JobHashField,
) -> bool {
    exists|i: int| 0 <= i < values.len() && field_of(#[trigger] values[i]) == field
}

/// Values that a job holds, one at least for each field, make up that job.
pub proof fn lemma_held_values_make_the_job<D, R, P>(
    job: Job<D, R, P>,
    values: Seq<JobValue<D, R, P>>,
    blank: Job<D, R, P>,
    read: Job<D, R, P>,
)
    requires
        values_set(blank, values, read),
        forall|i: int| 0 <= i < values.len() ==> is_held(#[trigger] values[i], job),
        forall|field: JobHashField| #[trigger] has_value(values, field),
    ensures
        is_job_read_back(read, job),
{
    lemma_values_agree(blank, values, read, job);
    assert forall|field: JobHashField| #[trigger] agrees(field, read, job) by {
        assert(has_value(values, field));
        let i = choose|i: int|
            0 <= i < values.len() && field_of(#[trigger] values[i]) == field;
        assert(agrees(field_of(values[i]), read, job));
    }
    lemma_all_agree(read, job);
}

/// A hash that holds what a job holds in every field, in any order and beside
/// any keys that name no field, is read back as that job. Points in time come back
/// to the microsecond.
pub proof fn law_hash_is_read_back<
    D,
    R,
    P,
    F: Fn(JobHashField, Vec<u8>) -> KioResult<JobValue<D, R, P>>,
>(
    job: Job<D, R, P>,
    pairs: Seq<(String, Vec<u8>)>,
    read_other: F,
    values: Seq<JobValue<D, R, P>>,
    blank: Job<D, R, P>,
    read: Job<D, R, P>,
)
    requires
        reads_its_field(read_other),
        pairs_read(read_other, pairs, values),
        values_set(blank, values, read),
        forall|i: int| 0 <= i < values.len() ==> is_held(#[trigger] values[i], job),
        forall|field: JobHashField| #[trigger] has_field(pairs, field),
    ensures
        is_job_read_back(read, job),
{
    assert forall|field: JobHashField| #[trigger] has_value(values, field) by {
        assert(has_field(pairs, field));
        let at = choose|at: int|
            0 <= at < pairs.len() && #[trigger] JobHashField::named(pairs[at].0@) == Some(field);
        lemma_pairs_cover(read_other, pairs, values, at, field);
    }
    lemma_held_values_make_the_job(job, values, blank, read);
}

/// The microseconds of a point of the calendar from the epoch on are read back as
/// that point, to the microsecond.
pub proof fn law_micros_are_read_back(nanos: int)
    requires
        0 <= nanos,
        time::in_calendar(nanos),
    ensures
        created_at(Some((nanos / (NANOS_PER_MICRO as int)) as u64)) == to_the_micro(nanos),
        reached_at(Some((nanos / (NANOS_PER_MICRO as int)) as u64)) == Some(to_the_micro(nanos)),
{
}

} // verus!
