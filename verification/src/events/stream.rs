//! Events as the store carries them.
use crate::error::{KioError, KioResult};
use crate::job::{FailedDetails, JobMetrics, JobState};
use crate::outside::lowercase::{self, to_lowercase};
use crate::outside::utf8::text_of;
use crate::time::{self, Dt, NANOS_PER_MILLI};
use crate::utils::parse::{self, chars_of, find_char, parse_number, slice_chars};
use crate::utils::text::{self, same_text};
use vstd::prelude::*;
use vstd::utf8;

verus! {

/// The id of an event in a stream: a point in time and a running number.
#[derive(Debug, Clone, Copy, PartialEq, Eq, Structural)]
pub struct StreamEventId(pub Dt, pub u64);

/// What an id in text form stands for: `timestamp-number`, the timestamp in
/// milliseconds.
pub enum IdReading {
    /// There is no hyphen.
    NoHyphen,
    /// One of the two parts is no number.
    NoNumber,
    /// The calendar does not reach the timestamp.
    NoTime,
    /// The nanoseconds of the timestamp, and the number.
    Id(int, u64),
}

/// The part of `text` before the first hyphen and the part behind it.
pub open spec fn hyphen_at(text: Seq<char>, at: int) -> bool {
    parse::first_at(text, '-', 0, at)
}

/// Reads the two parts of an id.
pub open spec fn read_id(stamp: Seq<char>, number: Seq<char>) -> IdReading {
    match parse::number_of(stamp, i64::MAX as u64) {
        None => IdReading::NoNumber,
        Some(millis) => if !time::in_calendar(millis * NANOS_PER_MILLI) {
            IdReading::NoTime
        } else {
            match parse::number_of(number, u64::MAX) {
                None => IdReading::NoNumber,
                Some(number) => IdReading::Id(millis * NANOS_PER_MILLI, number),
            }
        },
    }
}

impl StreamEventId {
    /// The id at `ts` milliseconds of Unix time with the number zero; at `now`
    /// where the calendar does not reach.
    pub fn from_timestamp_millis_at(ts: i64, now: Dt) -> (id: Self)
        ensures
            id.1 == 0,
            if time::in_calendar(ts * NANOS_PER_MILLI) {
                id.0@ == ts * NANOS_PER_MILLI
            } else {
                id.0 == now
            },
    {
        let dt = match Dt::from_timestamp_nanos((ts as i128) * NANOS_PER_MILLI) {
            Some(dt) => dt,
            None => now,
        };
        StreamEventId(dt, 0)
    }

    /// The id at `ts` milliseconds of Unix time with the number zero.
    pub fn from_timestamp_millis(ts: i64) -> (id: Self)
        ensures
            id.1 == 0,
            time::in_calendar(ts * NANOS_PER_MILLI) ==> id.0@ == ts * NANOS_PER_MILLI,
    {
        Self::from_timestamp_millis_at(ts, Dt::now())
    }

    /// Reads an id of the form `timestamp-number`.
    pub fn parse(id: &str) -> (parsed: KioResult<Self>)
        ensures
            exists|at: int| #[trigger]
                hyphen_at(id@, at) && if at == id@.len() {
                    parsed matches Err(KioError::IoError(_))
                } else {
                    match read_id(id@.take(at), id@.skip(at + 1)) {
                        IdReading::NoTime => parsed matches Err(KioError::IoError(_)),
                        IdReading::Id(nanos, number) => parsed matches Ok(parsed) && parsed.0@
                            == nanos && parsed.1 == number,
                        _ => parsed matches Err(KioError::ParseIntError(_)),
                    }
                },
    {
        let chars = chars_of(id);
        let at: usize = find_char(&chars, '-', 0);
        assert(hyphen_at(id@, at as int));
        if at == chars.len() {
            return Err(
                KioError::IoError(
                    String::from_str("invalid string format, expect timestamp-number"),
                ),
            );
        }
        let stamp = slice_chars(&chars, 0, at);
        let rest = slice_chars(&chars, at + 1, chars.len());
        assert(stamp@ =~= id@.take(at as int));
        assert(rest@ =~= id@.skip(at as int + 1));
        let millis: u64 = match parse_number(&stamp, i64::MAX as u64) {
            Some(millis) => millis,
            None => return Err(
                KioError::ParseIntError(String::from_str("the timestamp is no number")),
            ),
        };
        let dt = match Dt::from_timestamp_nanos((millis as i128) * NANOS_PER_MILLI) {
            Some(dt) => dt,
            None => return Err(KioError::IoError(String::from_str("invalid timestamp format"))),
        };
        match parse_number(&rest, u64::MAX) {
            Some(number) => Ok(StreamEventId(dt, number)),
            None => Err(KioError::ParseIntError(String::from_str("the number is none"))),
        }
    }
}

impl Default for StreamEventId {
    /// The id at the present time with the number zero.
    fn default() -> (id: Self)
        ensures
            id.1 == 0,
    {
        StreamEventId(Dt::now(), 0)
    }
}

/// An event as it stands in a stream or is published.
#[derive(Debug)]
pub struct QueueStreamEvent<R, P> {
    /// Id of the event.
    pub id: StreamEventId,
    /// Priority of the job.
    pub priority: Option<u64>,
    /// What happened.
    pub event: JobState,
    /// Delay in milliseconds.
    pub delay: Option<u64>,
    /// The state before.
    pub prev: Option<JobState>,
    /// The job.
    pub job_id: u64,
    /// The value the processor returned.
    pub returned_value: Option<R>,
    /// What is recorded of a failure.
    pub failed_reason: Option<FailedDetails>,
    /// The progress.
    pub progress_data: Option<P>,
    /// Name of the job.
    pub name: Option<String>,
    /// The worker.
    pub worker_id: Option<u128>,
    /// Timing and attempt statistics.
    pub metrics: Option<JobMetrics>,
}

impl<R, P> QueueStreamEvent<R, P> {
    /// The event with nothing in it but its id.
    pub open spec fn blank(id: StreamEventId) -> QueueStreamEvent<R, P> {
        QueueStreamEvent {
            id,
            priority: None,
            event: JobState::Wait,
            delay: None,
            prev: None,
            job_id: 0,
            returned_value: None,
            failed_reason: None,
            progress_data: None,
            name: None,
            worker_id: None,
            metrics: None,
        }
    }

    /// An event with nothing in it but this id.
    pub fn with_id(id: StreamEventId) -> (event: Self)
        ensures
            event == Self::blank(id),
    {
        QueueStreamEvent {
            metrics: None,
            failed_reason: None,
            priority: None,
            id,
            delay: None,
            event: JobState::default(),
            prev: None,
            job_id: 0,
            returned_value: None,
            name: None,
            progress_data: None,
            worker_id: None,
        }
    }

    /// The event that tells that the queue was paused, or resumed.
    pub open spec fn pause_told(pause: bool, id: StreamEventId) -> QueueStreamEvent<R, P> {
        QueueStreamEvent {
            event: if pause {
                JobState::Paused
            } else {
                JobState::Resumed
            },
            ..Self::blank(id)
        }
    }

    /// The event that tells that the queue was paused, or resumed.
    pub fn pause_event(pause: bool) -> (event: Self)
        ensures
            event == Self::pause_told(pause, event.id),
    {
        let mut event = Self::with_id(StreamEventId::default());
        event.event = if pause {
            JobState::Paused
        } else {
            JobState::Resumed
        };
        event
    }

    /// After a field took over its value.
    pub open spec fn with_value(self, value: EventValue<R, P>) -> QueueStreamEvent<R, P> {
        match value {
            EventValue::JobId(job_id) => QueueStreamEvent { job_id, ..self },
            EventValue::Name(name) => QueueStreamEvent { name, ..self },
            EventValue::Delay(delay) => QueueStreamEvent { delay, ..self },
            EventValue::WorkerId(worker_id) => QueueStreamEvent { worker_id, ..self },
            EventValue::Priority(priority) => QueueStreamEvent { priority, ..self },
            EventValue::Data(progress_data) => QueueStreamEvent { progress_data, ..self },
            EventValue::ReturnedValue(returned_value) => QueueStreamEvent {
                returned_value,
                ..self
            },
            EventValue::FailedReason(failed_reason) => QueueStreamEvent { failed_reason, ..self },
            EventValue::Event(event) => QueueStreamEvent { event, ..self },
            EventValue::Prev(prev) => QueueStreamEvent { prev, ..self },
            EventValue::Metrics(metrics) => QueueStreamEvent { metrics, ..self },
        }
    }

    /// Takes over the value of one field.
    pub fn set(&mut self, value: EventValue<R, P>)
        ensures
            *final(self) == old(self).with_value(value),
    {
        match value {
            EventValue::JobId(job_id) => self.job_id = job_id,
            EventValue::Name(name) => self.name = name,
            EventValue::Delay(delay) => self.delay = delay,
            EventValue::WorkerId(worker_id) => self.worker_id = worker_id,
            EventValue::Priority(priority) => self.priority = priority,
            EventValue::Data(data) => self.progress_data = data,
            EventValue::ReturnedValue(value) => self.returned_value = value,
            EventValue::FailedReason(reason) => self.failed_reason = reason,
            EventValue::Event(event) => self.event = event,
            EventValue::Prev(prev) => self.prev = prev,
            EventValue::Metrics(metrics) => self.metrics = metrics,
        }
    }

    /// The event that `id` and the decoded fields in `values`, taken one after
    /// the other, make up.
    pub open spec fn assembled(id: StreamEventId, values: Seq<EventValue<R, P>>) -> QueueStreamEvent<
        R,
        P,
    >
        decreases values.len(),
    {
        if values.len() == 0 {
            Self::blank(id)
        } else {
            Self::assembled(id, values.drop_last()).with_value(values.last())
        }
    }

    /// Makes up an event from its id and its decoded fields.
    pub fn assemble(id: StreamEventId, values: Vec<EventValue<R, P>>) -> (event: Self)
        ensures
            event == Self::assembled(id, values@),
    {
        let mut event = Self::with_id(id);
        let ghost all = values@;
        let mut values = values;
        let mut rest: Vec<EventValue<R, P>> = Vec::new();
        while values.len() > 0
            invariant
                values@ + rest@.reverse() =~= all,
            decreases values.len(),
        {
            if let Some(value) = values.pop() {
                rest.push(value);
            }
        }
        assert(all.take(0) =~= Seq::empty());
        assert(rest@.reverse() =~= all);
        while rest.len() > 0
            invariant
                rest@.len() <= all.len(),
                rest@ =~= all.skip(all.len() - rest@.len()).reverse(),
                event == Self::assembled(id, all.take(all.len() - rest@.len())),
            decreases rest.len(),
        {
            let ghost before = rest@;
            if let Some(value) = rest.pop() {
                proof {
                    let i = all.len() - before.len();
                    assert(before[before.len() - 1] == all[i]);
                    assert(all.take(i + 1).drop_last() =~= all.take(i));
                    assert(all.take(i + 1).last() == value);
                }
                event.set(value);
            }
        }
        assert(all.take(all.len() as int) =~= all);
        event
    }
}

/// The events that could be read, in their order.
pub open spec fn readable<R, P>(entries: Seq<KioResult<QueueStreamEvent<R, P>>>) -> Seq<
    QueueStreamEvent<R, P>,
>
    decreases entries.len(),
{
    if entries.len() == 0 {
        Seq::empty()
    } else {
        match entries.last() {
            Ok(event) => readable(entries.drop_last()).push(event),
            Err(_) => readable(entries.drop_last()),
        }
    }
}

/// `at` is the position of the first stream with this key, or the number of
/// streams where there is none.
pub open spec fn stream_at<T>(streams: Seq<(String, T)>, key: Seq<char>, at: int) -> bool {
    &&& 0 <= at <= streams.len()
    &&& forall|i: int| 0 <= i < at ==> (#[trigger] streams[i]).0@ != key
    &&& at < streams.len() ==> streams[at].0@ == key
}

impl<R, P> QueueStreamEvent<R, P> {
    /// The events of a reply in the stream `events_key`: those that could be
    /// read, of the first stream with that key.
    pub fn from_stream_read_reply(
        events_key: &str,
        reply: Vec<(String, Vec<KioResult<QueueStreamEvent<R, P>>>)>,
    ) -> (events: Vec<Self>)
        ensures
            exists|at: int| #[trigger]
                stream_at(reply@, events_key@, at) && events@ == if at < reply@.len() {
                    readable(reply@[at].1@)
                } else {
                    Seq::empty()
                },
    {
        let mut streams = reply;
        let mut at: usize = 0;
        while at < streams.len() && !same_text(streams[at].0.as_str(), events_key)
            invariant
                at <= streams.len(),
                streams@ == reply@,
                forall|i: int| 0 <= i < at ==> (#[trigger] streams@[i]).0@ != events_key@,
            decreases streams.len() - at,
        {
            at += 1;
        }
        assert(stream_at(reply@, events_key@, at as int));
        let mut events: Vec<Self> = Vec::new();
        if at == streams.len() {
            assert(events@ =~= Seq::empty());
            return events;
        }
        let (_, entries) = streams.swap_remove(at);
        let ghost all = entries@;
        assert(all == reply@[at as int].1@);
        let mut todo = entries;
        let mut rest: Vec<KioResult<QueueStreamEvent<R, P>>> = Vec::new();
        while todo.len() > 0
            invariant
                todo@ + rest@.reverse() =~= all,
            decreases todo.len(),
        {
            if let Some(entry) = todo.pop() {
                rest.push(entry);
            }
        }
        assert(rest@.reverse() =~= all);
        assert(all.take(0) =~= Seq::empty());
        assert(events@ =~= Seq::empty());
        while rest.len() > 0
            invariant
                rest@.len() <= all.len(),
                rest@ =~= all.skip(all.len() - rest@.len()).reverse(),
                events@ == readable(all.take(all.len() - rest@.len())),
            decreases rest.len(),
        {
            let ghost left = rest@;
            let ghost k = all.len() - left.len();
            if let Some(entry) = rest.pop() {
                proof {
                    assert(left[left.len() - 1] == all[k]);
                    assert(all.take(k + 1).drop_last() =~= all.take(k));
                    assert(all.take(k + 1).last() == entry);
                }
                if let Ok(event) = entry {
                    events.push(event);
                }
            }
        }
        assert(all.take(all.len() as int) =~= all);
        events
    }
}

impl<R, P> Default for QueueStreamEvent<R, P> {
    /// An event with nothing in it, at the present time.
    fn default() -> (event: Self)
        ensures
            event == Self::blank(event.id),
            event.id.1 == 0,
    {
        Self::with_id(StreamEventId::default())
    }
}

/// A field of a stream entry.
#[derive(Debug, Clone, Copy, PartialEq, Eq, Structural)]
pub enum EventField {
    /// The job.
    JobId,
    /// Name of the job.
    Name,
    /// Delay in milliseconds.
    Delay,
    /// The worker.
    WorkerId,
    /// Priority of the job.
    Priority,
    /// The progress.
    Data,
    /// The value the processor returned.
    ReturnedValue,
    /// What is recorded of a failure.
    FailedReason,
    /// What happened.
    Event,
    /// The state before.
    Prev,
    /// Timing and attempt statistics.
    Metrics,
}

/// The decoded value of a field.
#[derive(Debug)]
pub enum EventValue<R, P> {
    /// The job.
    JobId(u64),
    /// Name of the job.
    Name(Option<String>),
    /// Delay in milliseconds.
    Delay(Option<u64>),
    /// The worker.
    WorkerId(Option<u128>),
    /// Priority of the job.
    Priority(Option<u64>),
    /// The progress.
    Data(Option<P>),
    /// The value the processor returned.
    ReturnedValue(Option<R>),
    /// What is recorded of a failure.
    FailedReason(Option<FailedDetails>),
    /// What happened.
    Event(JobState),
    /// The state before.
    Prev(Option<JobState>),
    /// Timing and attempt statistics.
    Metrics(Option<JobMetrics>),
}

impl EventField {
    /// The field that a key in lower case names.
    pub open spec fn of_lowercase(key: Seq<char>) -> Option<EventField> {
        if key == "job_id"@ || key == "jobid"@ {
            Some(EventField::JobId)
        } else if key == "name"@ {
            Some(EventField::Name)
        } else if key == "delay"@ {
            Some(EventField::Delay)
        } else if key == "worker_id"@ || key == "workerid"@ {
            Some(EventField::WorkerId)
        } else if key == "priority"@ {
            Some(EventField::Priority)
        } else if key == "data"@ {
            Some(EventField::Data)
        } else if key == "returnedvalue"@ || key == "returned_value"@ {
            Some(EventField::ReturnedValue)
        } else if key == "failedreason"@ || key == "failed_reason"@ {
            Some(EventField::FailedReason)
        } else if key == "event"@ {
            Some(EventField::Event)
        } else if key == "prev"@ {
            Some(EventField::Prev)
        } else if key == "metrics"@ {
            Some(EventField::Metrics)
        } else {
            None
        }
    }

    /// The field that a key in lower case names.
    pub fn from_lowercase(key: &str) -> (field: Option<EventField>)
        ensures
            field == Self::of_lowercase(key@),
    {
        if same_text(key, "job_id") || same_text(key, "jobid") {
            Some(EventField::JobId)
        } else if same_text(key, "name") {
            Some(EventField::Name)
        } else if same_text(key, "delay") {
            Some(EventField::Delay)
        } else if same_text(key, "worker_id") || same_text(key, "workerid") {
            Some(EventField::WorkerId)
        } else if same_text(key, "priority") {
            Some(EventField::Priority)
        } else if same_text(key, "data") {
            Some(EventField::Data)
        } else if same_text(key, "returnedvalue") || same_text(key, "returned_value") {
            Some(EventField::ReturnedValue)
        } else if same_text(key, "failedreason") || same_text(key, "failed_reason") {
            Some(EventField::FailedReason)
        } else if same_text(key, "event") {
            Some(EventField::Event)
        } else if same_text(key, "prev") {
            Some(EventField::Prev)
        } else if same_text(key, "metrics") {
            Some(EventField::Metrics)
        } else {
            None
        }
    }

    /// The field that a key names, whatever the case of its letters.
    pub fn from_key(key: &str) -> (field: Option<EventField>)
        ensures
            field == Self::of_lowercase(lowercase::lowercase(key@)),
            lowercase::all_ascii(key@) ==> field == Self::of_lowercase(
                lowercase::ascii_lowered(key@),
            ),
    {
        let lower = to_lowercase(key);
        Self::from_lowercase(lower.as_str())
    }
}

/// The number that text in UTF-8 stands for.
pub open spec fn number_in(bytes: Seq<u8>) -> Option<u64> {
    parse::number_of(utf8::decode_utf8(bytes), u64::MAX)
}

/// Reads a number from text in UTF-8.
pub fn read_number_text(bytes: Vec<u8>) -> (number: KioResult<u64>)
    ensures
        match number {
            Ok(number) => utf8::valid_utf8(bytes@) && number_in(bytes@) == Some(number),
            Err(error) => if utf8::valid_utf8(bytes@) {
                number_in(bytes@) is None && error is ParseIntError
            } else {
                error is GeneralError
            },
        },
{
    let text = match text_of(bytes) {
        Ok(text) => text,
        Err(message) => return Err(KioError::GeneralError(message)),
    };
    match parse_number(&chars_of(text.as_str()), u64::MAX) {
        Some(number) => Ok(number),
        None => Err(KioError::ParseIntError(String::from_str("the field is no number"))),
    }
}

/// The field holds a number or a text as it is.
pub open spec fn is_plain(field: EventField) -> bool {
    match field {
        EventField::JobId | EventField::Name | EventField::Delay | EventField::Priority => true,
        _ => false,
    }
}

/// `result` is what the bytes give a plain field.
pub open spec fn plain_value_read<R, P>(
    field: EventField,
    bytes: Seq<u8>,
    result: KioResult<EventValue<R, P>>,
) -> bool {
    if !utf8::valid_utf8(bytes) {
        result matches Err(KioError::GeneralError(_))
    } else if field == EventField::Name {
        result matches Ok(EventValue::Name(Some(name))) && name@ == utf8::decode_utf8(bytes)
    } else {
        match number_in(bytes) {
            Some(number) => result == Ok::<EventValue<R, P>, KioError>(
                match field {
                    EventField::Delay => EventValue::Delay(Some(number)),
                    EventField::Priority => EventValue::Priority(Some(number)),
                    _ => EventValue::JobId(number),
                },
            ),
            None => result matches Err(KioError::ParseIntError(_)),
        }
    }
}

/// Reads the value of a plain field; nothing for any other field.
pub fn read_plain<R, P>(field: EventField, bytes: Vec<u8>) -> (value: Option<
    KioResult<EventValue<R, P>>,
>)
    ensures
        match value {
            Some(result) => is_plain(field) && plain_value_read(field, bytes@, result),
            None => !is_plain(field),
        },
{
    let value = match field {
        EventField::Name => match text_of(bytes) {
            Ok(name) => Ok(EventValue::Name(Some(name))),
            Err(message) => Err(KioError::GeneralError(message)),
        },
        EventField::JobId => match read_number_text(bytes) {
            Ok(number) => Ok(EventValue::JobId(number)),
            Err(error) => Err(error),
        },
        EventField::Delay => match read_number_text(bytes) {
            Ok(number) => Ok(EventValue::Delay(Some(number))),
            Err(error) => Err(error),
        },
        EventField::Priority => match read_number_text(bytes) {
            Ok(number) => Ok(EventValue::Priority(Some(number))),
            Err(error) => Err(error),
        },
        _ => return None,
    };
    Some(value)
}

/// A number that was written in decimal, as text in UTF-8, is read back.
pub proof fn law_number_text_is_read_back(number: u64)
    ensures
        utf8::valid_utf8(utf8::encode_utf8(text::decimal_digits(number as nat))),
        number_in(utf8::encode_utf8(text::decimal_digits(number as nat))) == Some(number),
{
    utf8::encode_utf8_valid_utf8(text::decimal_digits(number as nat));
    utf8::encode_utf8_decode_utf8(text::decimal_digits(number as nat));
    parse::law_decimal_is_read_back(number);
}

/// An id that was written as its milliseconds, a hyphen and its number is read back,
/// as long as the calendar reaches it.
pub proof fn law_stream_id_is_read_back(millis: u64, number: u64, at: int)
    requires
        millis <= i64::MAX,
        time::in_calendar(millis * 1_000_000),
        hyphen_at(
            text::decimal_digits(millis as nat) + "-"@ + text::decimal_digits(number as nat),
            at,
        ),
    ensures
        ({
            let text = text::decimal_digits(millis as nat) + "-"@ + text::decimal_digits(
                number as nat,
            );
            &&& at < text.len()
            &&& read_id(text.take(at), text.skip(at + 1)) == IdReading::Id(
                millis * 1_000_000,
                number,
            )
        }),
{
    reveal_strlit("-");
    let stamp = text::decimal_digits(millis as nat);
    let rest = text::decimal_digits(number as nat);
    let whole = stamp + "-"@ + rest;
    parse::law_decimal_is_read_back(millis);
    parse::law_decimal_is_read_back(number);
    parse::law_decimal_is_digits(millis);
    assert(whole[stamp.len() as int] == '-');
    assert forall|i: int| 0 <= i < stamp.len() implies whole[i] != '-' by {
        assert(parse::is_digit(stamp[i]));
        assert(whole[i] == stamp[i]);
    }
    if at < stamp.len() {
        assert(whole[at] == '-');
    }
    if at > stamp.len() {
        assert(whole[stamp.len() as int] != '-');
    }
    assert(whole.take(at) =~= stamp);
    assert(whole.skip(at + 1) =~= rest);
}

/// A text whose parts are no numbers is no id, nor is one whose time the calendar does
/// not reach; which of the two it is can be told.
pub proof fn law_other_texts_are_no_ids(stamp: Seq<char>, number: Seq<char>)
    ensures
        parse::number_of(stamp, i64::MAX as u64) is None ==> read_id(stamp, number)
            == IdReading::NoNumber,
        read_id(stamp, number) matches IdReading::Id(nanos, n) ==> parse::number_of(
            number,
            u64::MAX,
        ) == Some(n) && (parse::number_of(stamp, i64::MAX as u64) matches Some(millis) && nanos
            == millis * 1_000_000 && time::in_calendar(nanos)),
        read_id(stamp, number) is NoTime ==> (parse::number_of(stamp, i64::MAX as u64) matches Some(
            millis,
        ) && !time::in_calendar(millis * 1_000_000)),
{
}

/// A value that an event takes over is in the field it is for, and no other field
/// changes.
pub proof fn law_value_goes_to_its_field<R, P>(
    event: QueueStreamEvent<R, P>,
    value: EventValue<R, P>,
)
    ensures
        ({
            let after = event.with_value(value);
            &&& after.id == event.id
            &&& match value {
                EventValue::JobId(job_id) => after == (QueueStreamEvent { job_id, ..event }),
                EventValue::Name(name) => after == (QueueStreamEvent { name, ..event }),
                EventValue::Delay(delay) => after == (QueueStreamEvent { delay, ..event }),
                EventValue::WorkerId(worker_id) => after == (QueueStreamEvent {
                    worker_id,
                    ..event
                }),
                EventValue::Priority(priority) => after == (QueueStreamEvent {
                    priority,
                    ..event
                }),
                EventValue::Data(data) => after == (QueueStreamEvent {
                    progress_data: data,
                    ..event
                }),
                EventValue::ReturnedValue(returned) => after == (QueueStreamEvent {
                    returned_value: returned,
                    ..event
                }),
                EventValue::FailedReason(reason) => after == (QueueStreamEvent {
                    failed_reason: reason,
                    ..event
                }),
                EventValue::Event(state) => after == (QueueStreamEvent { event: state, ..event }),
                EventValue::Prev(prev) => after == (QueueStreamEvent { prev, ..event }),
                EventValue::Metrics(metrics) => after == (QueueStreamEvent { metrics, ..event }),
            }
        }),
{
}

/// An event keeps its id whatever fields it is made up of, the last value for a field
/// decides it, and an event without fields has nothing in it.
pub proof fn law_event_is_made_up_of_its_fields<R, P>(
    id: StreamEventId,
    values: Seq<EventValue<R, P>>,
    last: EventValue<R, P>,
)
    ensures
        QueueStreamEvent::<R, P>::assembled(id, values).id == id,
        last matches EventValue::JobId(job_id) ==> QueueStreamEvent::<R, P>::assembled(
            id,
            values.push(last),
        ).job_id == job_id,
        last matches EventValue::Event(state) ==> QueueStreamEvent::<R, P>::assembled(
            id,
            values.push(last),
        ).event == state,
        last matches EventValue::Prev(prev) ==> QueueStreamEvent::<R, P>::assembled(
            id,
            values.push(last),
        ).prev == prev,
        !(last is JobId) ==> QueueStreamEvent::<R, P>::assembled(id, values.push(last)).job_id
            == QueueStreamEvent::<R, P>::assembled(id, values).job_id,
        !(last is Event) ==> QueueStreamEvent::<R, P>::assembled(id, values.push(last)).event
            == QueueStreamEvent::<R, P>::assembled(id, values).event,
    decreases values.len(),
{
    assert(values.push(last).drop_last() =~= values);
    if values.len() > 0 {
        assert(values.drop_last().push(values.last()) =~= values);
        law_event_is_made_up_of_its_fields(id, values.drop_last(), values.last());
    }
}

/// An event with nothing in it but its id tells of no job and carries no value; the
/// event of a queue that was paused, or resumed, says which, and nothing else.
pub proof fn law_blank_event_says_nothing<R, P>(id: StreamEventId)
    ensures
        ({
            let blank = QueueStreamEvent::<R, P>::blank(id);
            &&& blank.id == id && blank.job_id == 0 && blank.event == JobState::Wait
            &&& blank.priority is None && blank.delay is None && blank.prev is None
            &&& blank.returned_value is None && blank.failed_reason is None
            &&& blank.progress_data is None && blank.name is None
            &&& blank.worker_id is None && blank.metrics is None
            &&& QueueStreamEvent::<R, P>::pause_told(true, id) == (QueueStreamEvent {
                event: JobState::Paused,
                ..blank
            })
            &&& QueueStreamEvent::<R, P>::pause_told(false, id) == (QueueStreamEvent {
                event: JobState::Resumed,
                ..blank
            })
        }),
{
}

/// The events of a reply are those that could be read, each of them once and in their
/// order: reading a reply in two parts gives what reading it at once does, one event for
/// each that could be read and none for any other.
pub proof fn law_readable_events_are_all_read<R, P>(
    first: Seq<KioResult<QueueStreamEvent<R, P>>>,
    second: Seq<KioResult<QueueStreamEvent<R, P>>>,
    event: QueueStreamEvent<R, P>,
    error: KioError,
)
    ensures
        readable(first + second) == readable(first) + readable(second),
        readable(seq![Ok::<QueueStreamEvent<R, P>, KioError>(event)]) == seq![event],
        readable(seq![Err::<QueueStreamEvent<R, P>, KioError>(error)]).len() == 0,
    decreases second.len(),
{
    reveal_with_fuel(readable, 2);
    assert(seq![Ok::<QueueStreamEvent<R, P>, KioError>(event)].drop_last() =~= Seq::empty());
    assert(seq![Err::<QueueStreamEvent<R, P>, KioError>(error)].drop_last() =~= Seq::empty());
    assert(readable(seq![Ok::<QueueStreamEvent<R, P>, KioError>(event)]) =~= seq![event]);
    if second.len() == 0 {
        assert(first + second =~= first);
        assert(readable(first) + readable(second) =~= readable(first));
    } else {
        law_readable_events_are_all_read(first, second.drop_last(), event, error);
        assert((first + second).drop_last() =~= first + second.drop_last());
        assert((first + second).last() == second.last());
        assert(readable(first + second) =~= readable(first) + readable(second));
    }
}

/// The keys of an event's fields in lower case: each names its own field, and where a
/// name is of two words it stands with and without an underscore between them.
pub proof fn law_fields_have_their_keys()
    ensures
        EventField::of_lowercase("job_id"@) == Some(EventField::JobId),
        EventField::of_lowercase("jobid"@) == Some(EventField::JobId),
        EventField::of_lowercase("name"@) == Some(EventField::Name),
        EventField::of_lowercase("delay"@) == Some(EventField::Delay),
        EventField::of_lowercase("worker_id"@) == Some(EventField::WorkerId),
        EventField::of_lowercase("workerid"@) == Some(EventField::WorkerId),
        EventField::of_lowercase("priority"@) == Some(EventField::Priority),
        EventField::of_lowercase("data"@) == Some(EventField::Data),
        EventField::of_lowercase("returnedvalue"@) == Some(EventField::ReturnedValue),
        EventField::of_lowercase("returned_value"@) == Some(EventField::ReturnedValue),
        EventField::of_lowercase("failedreason"@) == Some(EventField::FailedReason),
        EventField::of_lowercase("failed_reason"@) == Some(EventField::FailedReason),
        EventField::of_lowercase("event"@) == Some(EventField::Event),
        EventField::of_lowercase("prev"@) == Some(EventField::Prev),
        EventField::of_lowercase("metrics"@) == Some(EventField::Metrics),
{
    reveal_strlit("job_id");
    reveal_strlit("jobid");
    reveal_strlit("name");
    reveal_strlit("delay");
    reveal_strlit("worker_id");
    reveal_strlit("workerid");
    reveal_strlit("priority");
    reveal_strlit("data");
    reveal_strlit("returnedvalue");
    reveal_strlit("returned_value");
    reveal_strlit("failedreason");
    reveal_strlit("failed_reason");
    reveal_strlit("event");
    reveal_strlit("prev");
    reveal_strlit("metrics");
    assert("job_id"@[0] == 'j' && "jobid"@[0] == 'j');
    assert("name"@[0] == 'n');
    assert("delay"@[0] == 'd' && "delay"@[1] == 'e');
    assert("worker_id"@[0] == 'w' && "workerid"@[0] == 'w');
    assert("priority"@[0] == 'p' && "priority"@[2] == 'i');
    assert("data"@[0] == 'd' && "data"@[1] == 'a');
    assert("returnedvalue"@[0] == 'r' && "returned_value"@[0] == 'r');
    assert("failedreason"@[0] == 'f' && "failed_reason"@[0] == 'f');
    assert("event"@[0] == 'e');
    assert("prev"@[0] == 'p' && "prev"@[2] == 'e');
    assert("metrics"@[0] == 'm');
}

/// A plain field that holds a number is read back as that number, in its own field; a
/// name is read back as it was written.
pub proof fn law_plain_fields_are_read_back<R, P>(
    number: u64,
    name: Seq<char>,
    id: KioResult<EventValue<R, P>>,
    delay: KioResult<EventValue<R, P>>,
    priority: KioResult<EventValue<R, P>>,
    named: KioResult<EventValue<R, P>>,
)
    requires
        ({
            let written = utf8::encode_utf8(text::decimal_digits(number as nat));
            &&& plain_value_read(EventField::JobId, written, id)
            &&& plain_value_read(EventField::Delay, written, delay)
            &&& plain_value_read(EventField::Priority, written, priority)
            &&& plain_value_read(EventField::Name, utf8::encode_utf8(name), named)
        }),
    ensures
        id == Ok::<EventValue<R, P>, KioError>(EventValue::JobId(number)),
        delay == Ok::<EventValue<R, P>, KioError>(EventValue::Delay(Some(number))),
        priority == Ok::<EventValue<R, P>, KioError>(EventValue::Priority(Some(number))),
        named matches Ok(EventValue::Name(Some(own))) && own@ == name,
        is_plain(EventField::JobId) && is_plain(EventField::Delay) && is_plain(
            EventField::Priority,
        ) && is_plain(EventField::Name),
{
    law_number_text_is_read_back(number);
    utf8::encode_utf8_valid_utf8(name);
    utf8::encode_utf8_decode_utf8(name);
}

/// There is one first stream with a key: two positions that are it are the same.
pub proof fn law_stream_is_found_once<T>(
    streams: Seq<(String, T)>,
    key: Seq<char>,
    one: int,
    other: int,
)
    requires
        stream_at(streams, key, one),
        stream_at(streams, key, other),
    ensures
        one == other,
        one < streams.len() ==> streams[one].0@ == key,
{
    if one < other {
        assert(streams[one].0@ != key);
    }
    if other < one {
        assert(streams[other].0@ != key);
    }
}

} // verus!
