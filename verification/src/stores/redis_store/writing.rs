//! Job records as they are written to the fields of a hash.
use super::records::{self, JobHashField, JobValue};
use crate::error::KioResult;
use crate::job::Job;
use crate::outside::json::{
    self, write_number_text, write_optional_number, write_optional_signed, write_optional_text,
    write_text, write_texts,
};
use crate::time::{Dt, NANOS_PER_MICRO};
use crate::utils::text;
use vstd::prelude::*;
use vstd::utf8;

verus! {

impl JobHashField {
    /// The key that the field is written under.
    pub open spec fn key_words(self) -> Seq<char> {
        match self {
            JobHashField::Id => "id"@,
            JobHashField::Timestamp => "timestamp"@,
            JobHashField::Opts => "opts"@,
            JobHashField::Name => "name"@,
            JobHashField::QueueName => "queueName"@,
            JobHashField::State => "state"@,
            JobHashField::Token => "token"@,
            JobHashField::Progress => "progress"@,
            JobHashField::AttemptsMade => "attemptsMade"@,
            JobHashField::Delay => "delay"@,
            JobHashField::Priority => "priority"@,
            JobHashField::Data => "data"@,
            JobHashField::ReturnedValue => "returnedValue"@,
            JobHashField::StackTrace => "stackTrace"@,
            JobHashField::Logs => "logs"@,
            JobHashField::FailedReason => "failedReason"@,
            JobHashField::ProcessedOn => "processedOn"@,
            JobHashField::FinishedOn => "finishedOn"@,
            JobHashField::StalledCounter => "stalledCounter"@,
        }
    }

    /// The key that the field is written under.
    pub fn key(self) -> (key: &'static str)
        ensures
            key@ == self.key_words(),
    {
        match self {
            JobHashField::Id => "id",
            JobHashField::Timestamp => "timestamp",
            JobHashField::Opts => "opts",
            JobHashField::Name => "name",
            JobHashField::QueueName => "queueName",
            JobHashField::State => "state",
            JobHashField::Token => "token",
            JobHashField::Progress => "progress",
            JobHashField::AttemptsMade => "attemptsMade",
            JobHashField::Delay => "delay",
            JobHashField::Priority => "priority",
            JobHashField::Data => "data",
            JobHashField::ReturnedValue => "returnedValue",
            JobHashField::StackTrace => "stackTrace",
            JobHashField::Logs => "logs",
            JobHashField::FailedReason => "failedReason",
            JobHashField::ProcessedOn => "processedOn",
            JobHashField::FinishedOn => "finishedOn",
            JobHashField::StalledCounter => "stalledCounter",
        }
    }
}

/// The key that a field is written under names that field.
pub proof fn law_written_key_names_its_field(field: JobHashField)
    ensures
        JobHashField::named(field.key_words()) == Some(field),
{
    reveal_strlit("id");
    reveal_strlit("timestamp");
    reveal_strlit("opts");
    reveal_strlit("name");
    reveal_strlit("queuename");
    reveal_strlit("queueName");
    reveal_strlit("state");
    reveal_strlit("token");
    reveal_strlit("progress");
    reveal_strlit("attemptsmade");
    reveal_strlit("attemptsMade");
    reveal_strlit("delay");
    reveal_strlit("priority");
    reveal_strlit("data");
    reveal_strlit("returnedvalue");
    reveal_strlit("returnedValue");
    reveal_strlit("stacktrace");
    reveal_strlit("stackTrace");
    reveal_strlit("logs");
    reveal_strlit("failedreason");
    reveal_strlit("failedReason");
    reveal_strlit("processedon");
    reveal_strlit("processedOn");
    reveal_strlit("finishedon");
    reveal_strlit("finishedOn");
    reveal_strlit("stalledcounter");
    reveal_strlit("stalledCounter");
    assert("id"@.len() == 2);
    assert("timestamp"@.len() == 9);
    assert("opts"@.len() == 4);
    assert("name"@.len() == 4);
    assert("queuename"@.len() == 9);
    assert("queueName"@.len() == 9);
    assert("state"@.len() == 5);
    assert("token"@.len() == 5);
    assert("progress"@.len() == 8);
    assert("attemptsmade"@.len() == 12);
    assert("attemptsMade"@.len() == 12);
    assert("delay"@.len() == 5);
    assert("priority"@.len() == 8);
    assert("data"@.len() == 4);
    assert("returnedvalue"@.len() == 13);
    assert("returnedValue"@.len() == 13);
    assert("stacktrace"@.len() == 10);
    assert("stackTrace"@.len() == 10);
    assert("logs"@.len() == 4);
    assert("failedreason"@.len() == 12);
    assert("failedReason"@.len() == 12);
    assert("processedon"@.len() == 11);
    assert("processedOn"@.len() == 11);
    assert("finishedon"@.len() == 10);
    assert("finishedOn"@.len() == 10);
    assert("stalledcounter"@.len() == 14);
    assert("stalledCounter"@.len() == 14);
    assert("opts"@[0] == 'o' && "name"@[0] == 'n' && "data"@[0] == 'd' && "logs"@[0] == 'l');
    assert("state"@[0] == 's' && "token"@[0] == 't' && "delay"@[0] == 'd');
    assert("progress"@[2] == 'o' && "priority"@[2] == 'i');
    assert("timestamp"@[0] == 't' && "queuename"@[0] == 'q' && "queueName"@[0] == 'q');
    assert("stacktrace"@[0] == 's' && "stackTrace"@[0] == 's');
    assert("finishedon"@[0] == 'f' && "finishedOn"@[0] == 'f');
    assert("attemptsmade"@[0] == 'a' && "attemptsMade"@[0] == 'a');
    assert("failedreason"@[0] == 'f' && "failedReason"@[0] == 'f');
}

/// The fields of a job's hash, in the order in which they are written.
pub open spec fn fields() -> Seq<JobHashField> {
    seq![
        JobHashField::Id,
        JobHashField::Timestamp,
        JobHashField::Name,
        JobHashField::State,
        JobHashField::Progress,
        JobHashField::AttemptsMade,
        JobHashField::Opts,
        JobHashField::Delay,
        JobHashField::Data,
        JobHashField::ReturnedValue,
        JobHashField::StackTrace,
        JobHashField::FailedReason,
        JobHashField::ProcessedOn,
        JobHashField::FinishedOn,
        JobHashField::QueueName,
        JobHashField::Token,
        JobHashField::StalledCounter,
        JobHashField::Logs,
        JobHashField::Priority,
    ]
}

/// The fields of a job's hash, in the order in which they are written.
fn all_fields() -> (all: Vec<JobHashField>)
    ensures
        all@ == fields(),
{
    let mut all: Vec<JobHashField> = Vec::new();
    all.push(JobHashField::Id);
    all.push(JobHashField::Timestamp);
    all.push(JobHashField::Name);
    all.push(JobHashField::State);
    all.push(JobHashField::Progress);
    all.push(JobHashField::AttemptsMade);
    all.push(JobHashField::Opts);
    all.push(JobHashField::Delay);
    all.push(JobHashField::Data);
    all.push(JobHashField::ReturnedValue);
    all.push(JobHashField::StackTrace);
    all.push(JobHashField::FailedReason);
    all.push(JobHashField::ProcessedOn);
    all.push(JobHashField::FinishedOn);
    all.push(JobHashField::QueueName);
    all.push(JobHashField::Token);
    all.push(JobHashField::StalledCounter);
    all.push(JobHashField::Logs);
    all.push(JobHashField::Priority);
    assert(all@ =~= fields());
    all
}

/// The whole microseconds from the epoch to a point in time.
pub open spec fn micros_of(dt: Dt) -> int {
    dt@ / (NANOS_PER_MICRO as int)
}

/// A point in time as JSON: its whole microseconds.
pub open spec fn micros_json(dt: Option<Dt>) -> Seq<char> {
    match dt {
        Some(dt) => text::signed_digits(micros_of(dt)),
        None => "null"@,
    }
}

/// How the value of a plain field is written.
pub open spec fn plain_text<D, R, P>(field: JobHashField, job: Job<D, R, P>) -> Seq<char> {
    match field {
        JobHashField::Id => json::optional_number_json(job.id),
        JobHashField::Timestamp => micros_json(Some(job.ts)),
        JobHashField::Name => json::text_json(job.name@),
        JobHashField::QueueName => json::optional_text_json(json::text_in(job.queue_name)),
        JobHashField::AttemptsMade => text::decimal_digits(job.attempts_made as nat),
        JobHashField::Delay => text::decimal_digits(job.delay as nat),
        JobHashField::Priority => text::decimal_digits(job.priority as nat),
        JobHashField::Logs => json::texts_json(json::texts_of(job.logs@)),
        JobHashField::ProcessedOn => micros_json(job.processed_on),
        JobHashField::FinishedOn => micros_json(job.finished_on),
        JobHashField::StalledCounter => text::decimal_digits(job.stalled_counter as nat),
        _ => Seq::empty(),
    }
}

/// A point in time, where there is one, does not lie before the epoch.
pub open spec fn not_before_epoch(dt: Option<Dt>) -> bool {
    match dt {
        Some(dt) => dt@ >= 0,
        None => true,
    }
}

/// No point in time that the job holds lies before the epoch.
pub open spec fn times_from_epoch<D, R, P>(job: Job<D, R, P>) -> bool {
    &&& job.ts@ >= 0
    &&& not_before_epoch(job.processed_on)
    &&& not_before_epoch(job.finished_on)
}

/// What is written in a plain field is read as what the job holds.
pub open spec fn plain_reads_back<D, R, P>(field: JobHashField, job: Job<D, R, P>) -> bool {
    let bytes = utf8::encode_utf8(plain_text(field, job));
    &&& records::is_readable(field, bytes)
    &&& forall|value: JobValue<D, R, P>| #[trigger]
        records::is_value(field, bytes, value) ==> records::is_held(value, job)
            && records::field_of(value) == field
}

/// `text` is how a field of the job is written: a plain value as JSON, any other
/// by `write_other`. A plain value is read back, unless it is too long to be read
/// or a point in time lies before the epoch.
pub open spec fn field_written<D, R, P, W: Fn(JobHashField, &Job<D, R, P>) -> String>(
    write_other: W,
    field: JobHashField,
    job: Job<D, R, P>,
    text: Seq<char>,
) -> bool {
    if records::is_plain(field) {
        &&& text == plain_text(field, job)
        &&& utf8::encode_utf8(text).len() <= json::LONGEST_INPUT && times_from_epoch(job)
            ==> plain_reads_back(field, job)
    } else {
        exists|given: String|
            given@ == text && #[trigger] call_ensures(write_other, (field, &job), given)
    }
}

/// `pairs` are the fields of the job, each under its key, as they are written.
pub open spec fn job_written<D, R, P, W: Fn(JobHashField, &Job<D, R, P>) -> String>(
    write_other: W,
    job: Job<D, R, P>,
    pairs: Seq<(String, String)>,
) -> bool {
    &&& pairs.len() == fields().len()
    &&& forall|i: int|
        0 <= i < pairs.len() ==> (#[trigger] pairs[i]).0@ == fields()[i].key_words()
            && field_written(write_other, fields()[i], job, pairs[i].1@)
}

/// The point in time in microseconds.
fn micros(dt: &Option<Dt>) -> (micros: Option<i64>)
    ensures
        json::optional_signed_json(micros) == micros_json(*dt),
        not_before_epoch(*dt) ==> match micros {
            Some(micros) => micros >= 0 && records::reached_at(Some(micros as u64))
                == records::reached_to_the_micro(*dt),
            None => *dt is None,
        },
{
    match dt {
        Some(dt) => {
            let micros: i64 = dt.timestamp_micros();
            proof {
                if dt@ >= 0 {
                    records::law_micros_are_read_back(dt@);
                }
            }
            Some(micros)
        },
        None => None,
    }
}

/// Writes the value of a plain field; nothing for any other field.
fn write_plain<D, R, P>(field: JobHashField, job: &Job<D, R, P>) -> (text: Option<String>)
    ensures
        text is Some <==> records::is_plain(field),
        text matches Some(text) ==> {
            &&& text@ == plain_text(field, *job)
            &&& utf8::encode_utf8(text@).len() <= json::LONGEST_INPUT && times_from_epoch(*job)
                ==> plain_reads_back(field, *job)
        },
{
    let written = match field {
        JobHashField::Id => write_optional_number(job.id),
        JobHashField::Timestamp => write_optional_signed(micros(&Some(job.ts))),
        JobHashField::Name => write_text(&job.name),
        JobHashField::QueueName => write_optional_text(&job.queue_name),
        JobHashField::AttemptsMade => write_number_text(job.attempts_made),
        JobHashField::Delay => write_number_text(job.delay),
        JobHashField::Priority => write_number_text(job.priority),
        JobHashField::Logs => write_texts(&job.logs),
        JobHashField::ProcessedOn => write_optional_signed(micros(&job.processed_on)),
        JobHashField::FinishedOn => write_optional_signed(micros(&job.finished_on)),
        JobHashField::StalledCounter => write_number_text(job.stalled_counter),
        _ => return None,
    };
    match written {
        Ok(text) => Some(text),
        Err(_) => None,
    }
}

/// The fields of a job as pairs of key and text: plain values as JSON, the others
/// as `write_other` writes them.
pub fn job_pairs<D, R, P, W: Fn(JobHashField, &Job<D, R, P>) -> String>(
    job: &Job<D, R, P>,
    write_other: &W,
) -> (pairs: Vec<(String, String)>)
    requires
        forall|field: JobHashField| #[trigger] call_requires(*write_other, (field, job)),
    ensures
        job_written(*write_other, *job, pairs@),
{
    let all = all_fields();
    let mut pairs: Vec<(String, String)> = Vec::new();
    let mut i: usize = 0;
    while i < all.len()
        invariant
            i <= all.len(),
            all@ == fields(),
            forall|field: JobHashField| #[trigger] call_requires(*write_other, (field, job)),
            pairs@.len() == i,
            forall|k: int|
                0 <= k < i ==> (#[trigger] pairs@[k]).0@ == fields()[k].key_words()
                    && field_written(*write_other, fields()[k], *job, pairs@[k].1@),
        decreases all.len() - i,
    {
        let field = all[i];
        let text = match write_plain(field, job) {
            Some(text) => text,
            None => write_other(field, job),
        };
        assert(field_written(*write_other, field, *job, text@));
        pairs.push((String::from_str(field.key()), text));
        i += 1;
    }
    pairs
}

/// The pair `stored` of a hash is the pair `written`, as bytes.
pub open spec fn is_stored(stored: (String, Vec<u8>), written: (String, String)) -> bool {
    stored.0@ == written.0@ && stored.1@ == utf8::encode_utf8(written.1@)
}

/// `hash` holds the pairs, in any order, and beside them nothing but keys that
/// name no field.
pub open spec fn holds_pairs(
    hash: Seq<(String, Vec<u8>)>,
    pairs: Seq<(String, String)>,
) -> bool {
    &&& forall|i: int|
        0 <= i < pairs.len() ==> exists|j: int|
            0 <= j < hash.len() && is_stored(#[trigger] hash[j], #[trigger] pairs[i])
    &&& forall|j: int|
        0 <= j < hash.len() && JobHashField::named((#[trigger] hash[j]).0@) is Some
            ==> exists|i: int| 0 <= i < pairs.len() && is_stored(hash[j], #[trigger] pairs[i])
}

/// What `write_other` writes of the job, `read_other` reads as what the job holds.
pub open spec fn others_read_back<
    D,
    R,
    P,
    W: Fn(JobHashField, &Job<D, R, P>) -> String,
    F: Fn(JobHashField, Vec<u8>) -> KioResult<JobValue<D, R, P>>,
>(write_other: W, read_other: F, job: Job<D, R, P>) -> bool {
    forall|
        field: JobHashField,
        text: String,
        bytes: Vec<u8>,
        result: KioResult<JobValue<D, R, P>>,
    |
        #[trigger] call_ensures(write_other, (field, &job), text) && bytes@ == utf8::encode_utf8(
            text@,
        ) && #[trigger] call_ensures(read_other, (field, bytes), result) ==> {
            &&& result is Ok
            &&& records::is_held(result->Ok_0, job)
            &&& records::field_of(result->Ok_0) == field
        }
}

/// Whatever comes of reading the pair, it is what the job holds in the field that
/// the key names.
pub open spec fn reads_as_held<
    D,
    R,
    P,
    F: Fn(JobHashField, Vec<u8>) -> KioResult<JobValue<D, R, P>>,
>(read_other: F, job: Job<D, R, P>, pair: (String, Vec<u8>)) -> bool {
    match JobHashField::named(pair.0@) {
        Some(field) => forall|result: KioResult<JobValue<D, R, P>>| #[trigger]
            records::field_read(read_other, field, pair.1, result) ==> {
                &&& result is Ok
                &&& records::is_held(result->Ok_0, job)
                &&& records::field_of(result->Ok_0) == field
            },
        None => true,
    }
}

/// A pair as it was written is read as what the job holds.
proof fn lemma_pair_reads_back<
    D,
    R,
    P,
    W: Fn(JobHashField, &Job<D, R, P>) -> String,
    F: Fn(JobHashField, Vec<u8>) -> KioResult<JobValue<D, R, P>>,
>(
    write_other: W,
    read_other: F,
    job: Job<D, R, P>,
    field: JobHashField,
    written: (String, String),
    stored: (String, Vec<u8>),
)
    requires
        times_from_epoch(job),
        others_read_back(write_other, read_other, job),
        written.0@ == field.key_words(),
        field_written(write_other, field, job, written.1@),
        utf8::encode_utf8(written.1@).len() <= json::LONGEST_INPUT,
        is_stored(stored, written),
    ensures
        JobHashField::named(stored.0@) == Some(field),
        reads_as_held(read_other, job, stored),
{
    law_written_key_names_its_field(field);
    assert forall|result: KioResult<JobValue<D, R, P>>| #[trigger]
        records::field_read(read_other, field, stored.1, result) implies {
        &&& result is Ok
        &&& records::is_held(result->Ok_0, job)
        &&& records::field_of(result->Ok_0) == field
    } by {
        if records::is_plain(field) {
            assert(plain_reads_back(field, job));
        } else {
            let given = choose|given: String|
                given@ == written.1@ && #[trigger] call_ensures(
                    write_other,
                    (field, &job),
                    given,
                );
            let bytes = choose|bytes: Vec<u8>|
                bytes@ == stored.1@ && #[trigger] call_ensures(
                    read_other,
                    (field, bytes),
                    result,
                );
            assert(call_ensures(write_other, (field, &job), given));
            assert(call_ensures(read_other, (field, bytes), result));
        }
    }
}

/// The values of pairs that read as what the job holds are what it holds, and
/// there is one for each field that a key names.
proof fn lemma_pairs_held<
    D,
    R,
    P,
    F: Fn(JobHashField, Vec<u8>) -> KioResult<JobValue<D, R, P>>,
>(
    read_other: F,
    job: Job<D, R, P>,
    pairs: Seq<(String, Vec<u8>)>,
    values: Seq<JobValue<D, R, P>>,
)
    requires
        records::pairs_read(read_other, pairs, values),
        forall|j: int|
            0 <= j < pairs.len() ==> reads_as_held(read_other, job, #[trigger] pairs[j]),
    ensures
        forall|i: int| 0 <= i < values.len() ==> records::is_held(#[trigger] values[i], job),
        forall|field: JobHashField| #[trigger]
            records::has_field(pairs, field) ==> records::has_value(values, field),
    decreases pairs.len(),
{
    if pairs.len() > 0 {
        let rest = pairs.drop_last();
        let last = pairs[pairs.len() - 1];
        assert forall|j: int| 0 <= j < rest.len() implies reads_as_held(
            read_other,
            job,
            #[trigger] rest[j],
        ) by {
            assert(rest[j] == pairs[j]);
        }
        assert(reads_as_held(read_other, job, last));
        match JobHashField::named(last.0@) {
            Some(own) => {
                let before = values.drop_last();
                lemma_pairs_held(read_other, job, rest, before);
                assert(records::field_read(
                    read_other,
                    own,
                    last.1,
                    Ok::<JobValue<D, R, P>, crate::error::KioError>(values.last()),
                ));
                assert forall|i: int| 0 <= i < values.len() implies records::is_held(
                    #[trigger] values[i],
                    job,
                ) by {
                    if i < before.len() {
                        assert(values[i] == before[i]);
                    }
                }
                assert forall|field: JobHashField| #[trigger]
                    records::has_field(pairs, field) implies records::has_value(values, field) by {
                    if field == own {
                        assert(records::field_of(values[values.len() - 1]) == field);
                    } else {
                        lemma_field_before(pairs, field);
                        assert(records::has_value(before, field));
                        let i = choose|i: int|
                            0 <= i < before.len() && records::field_of(#[trigger] before[i])
                                == field;
                        assert(values[i] == before[i]);
                    }
                }
            },
            None => {
                lemma_pairs_held(read_other, job, rest, values);
                assert forall|field: JobHashField| #[trigger]
                    records::has_field(pairs, field) implies records::has_value(values, field) by {
                    lemma_field_before(pairs, field);
                }
            },
        }
    }
}

/// A field that the last key does not name is named by one before it.
proof fn lemma_field_before(pairs: Seq<(String, Vec<u8>)>, field: JobHashField)
    requires
        records::has_field(pairs, field),
        JobHashField::named(pairs.last().0@) != Some(field),
    ensures
        records::has_field(pairs.drop_last(), field),
{
    let at = choose|at: int|
        0 <= at < pairs.len() && #[trigger] JobHashField::named(pairs[at].0@) == Some(field);
    assert(JobHashField::named(pairs.drop_last()[at].0@) == Some(field));
}

/// The job's points in time are whole microseconds.
pub open spec fn whole_micros<D, R, P>(job: Job<D, R, P>) -> bool {
    &&& records::to_the_micro(job.ts@) == job.ts@
    &&& records::reached_to_the_micro(job.processed_on) == records::nanos_of(job.processed_on)
    &&& records::reached_to_the_micro(job.finished_on) == records::nanos_of(job.finished_on)
}

/// The two jobs hold the same, field for field.
pub open spec fn same_job<D, R, P>(read: Job<D, R, P>, job: Job<D, R, P>) -> bool {
    &&& read == (Job {
        name: read.name,
        queue_name: read.queue_name,
        logs: read.logs,
        ..job
    })
    &&& read.name@ == job.name@
    &&& json::text_in(read.queue_name) == json::text_in(job.queue_name)
    &&& json::texts_of(read.logs@) == json::texts_of(job.logs@)
}

/// A job that was written to a hash is read back from it, in whatever order the
/// pairs come and whatever unknown keys stand beside them: with its points in time
/// to the microsecond, and field for field where these are whole microseconds. The
/// values that `write_other` writes must be read back by `read_other`, no point in
/// time may lie before the epoch, and no text may be too long to be read.
pub proof fn law_written_job_is_read_back<
    D,
    R,
    P,
    W: Fn(JobHashField, &Job<D, R, P>) -> String,
    F: Fn(JobHashField, Vec<u8>) -> KioResult<JobValue<D, R, P>>,
>(
    job: Job<D, R, P>,
    write_other: W,
    read_other: F,
    pairs: Seq<(String, String)>,
    hash: Seq<(String, Vec<u8>)>,
    result: KioResult<Job<D, R, P>>,
)
    requires
        job_written(write_other, job, pairs),
        others_read_back(write_other, read_other, job),
        times_from_epoch(job),
        forall|i: int|
            0 <= i < pairs.len() ==> utf8::encode_utf8((#[trigger] pairs[i]).1@).len()
                <= json::LONGEST_INPUT,
        holds_pairs(hash, pairs),
        records::hash_read(read_other, hash, result),
    ensures
        result is Ok,
        records::is_job_read_back(result->Ok_0, job),
        whole_micros(job) ==> same_job(result->Ok_0, job),
{
    assert forall|j: int| 0 <= j < hash.len() implies reads_as_held(
        read_other,
        job,
        #[trigger] hash[j],
    ) by {
        if JobHashField::named(hash[j].0@) is Some {
            let i = choose|i: int| 0 <= i < pairs.len() && is_stored(hash[j], #[trigger] pairs[i]);
            lemma_pair_reads_back(write_other, read_other, job, fields()[i], pairs[i], hash[j]);
        }
    }
    match result {
        Ok(read) => {
            let (blank, values) = choose|blank: Job<D, R, P>, values: Seq<JobValue<D, R, P>>|
                blank.is_new(blank.ts, ""@, None, None, None) && records::pairs_read(
                    read_other,
                    hash,
                    values,
                ) && #[trigger] records::values_set(blank, values, read);
            lemma_pairs_held(read_other, job, hash, values);
            assert forall|field: JobHashField| #[trigger] records::has_field(hash, field) by {
                lemma_every_field(field);
                let i = choose|i: int| 0 <= i < fields().len() && fields()[i] == field;
                assert(pairs[i].0@ == fields()[i].key_words());
                let j = choose|j: int|
                    0 <= j < hash.len() && is_stored(#[trigger] hash[j], pairs[i]);
                law_written_key_names_its_field(field);
                assert(JobHashField::named(hash[j].0@) == Some(field));
            }
            assert forall|field: JobHashField| #[trigger] records::has_value(values, field) by {
                assert(records::has_field(hash, field));
            }
            records::lemma_held_values_make_the_job(job, values, blank, read);
            if whole_micros(job) {
                Dt::lemma_same_point(read.ts, job.ts);
                if let (Some(one), Some(other)) = (read.processed_on, job.processed_on) {
                    Dt::lemma_same_point(one, other);
                }
                if let (Some(one), Some(other)) = (read.finished_on, job.finished_on) {
                    Dt::lemma_same_point(one, other);
                }
            }
        },
        Err(error) => {
            let (at, values) = choose|at: int, values: Seq<JobValue<D, R, P>>| #[trigger]
                records::stopped_at_pair(read_other, hash, at, values, error);
            assert(reads_as_held(read_other, job, hash[at]));
        },
    }
}

/// Every field is written.
proof fn lemma_every_field(field: JobHashField)
    ensures
        fields().contains(field),
{
    let at: int = match field {
        JobHashField::Id => 0,
        JobHashField::Timestamp => 1,
        JobHashField::Name => 2,
        JobHashField::State => 3,
        JobHashField::Progress => 4,
        JobHashField::AttemptsMade => 5,
        JobHashField::Opts => 6,
        JobHashField::Delay => 7,
        JobHashField::Data => 8,
        JobHashField::ReturnedValue => 9,
        JobHashField::StackTrace => 10,
        JobHashField::FailedReason => 11,
        JobHashField::ProcessedOn => 12,
        JobHashField::FinishedOn => 13,
        JobHashField::QueueName => 14,
        JobHashField::Token => 15,
        JobHashField::StalledCounter => 16,
        JobHashField::Logs => 17,
        JobHashField::Priority => 18,
    };
    assert(fields()[at] == field);
}

} // verus!
