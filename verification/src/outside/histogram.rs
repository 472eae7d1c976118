//! `hdrhistogram`'s histograms, carried in their serialized form.
use hdrhistogram::serialization::{Deserializer, Serializer, V2Serializer};
use hdrhistogram::Histogram;
use vstd::prelude::*;

verus! {

/// Length of the header of a serialized histogram.
pub const HEADER_LEN: usize = 40;

/// Counts below this one are written without a run of ones.
pub const LARGE_COUNT: u64 = 0x7f80_0000_0000_0000;

/// Nine bytes in a row are all ones.
pub open spec fn all_ones(bytes: Seq<u8>, start: int) -> bool {
    forall|i: int| start <= i < start + 9 ==> #[trigger] bytes[i] == 0xff
}

/// The bytes can be handed to the reader: they have an uncompressed histogram's
/// header and as many bytes behind it as it says, and no nine bytes in a row there
/// are all ones. Such a run stands for a number that the reader cannot negate.
pub open spec fn readable(bytes: Seq<u8>) -> bool {
    &&& bytes.len() >= HEADER_LEN
    &&& bytes[0] == 0x1c && bytes[1] == 0x84 && bytes[2] == 0x93 && bytes[3] == 0x13
    &&& bytes[4] * 0x100_0000 + bytes[5] * 0x1_0000 + bytes[6] * 0x100 + bytes[7] + HEADER_LEN
        <= bytes.len()
    &&& forall|start: int| HEADER_LEN <= start && start + 9 <= bytes.len() ==> !#[trigger] all_ones(
        bytes,
        start,
    )
}

/// Whether the bytes can be handed to the reader.
pub(crate) fn is_readable(bytes: &Vec<u8>) -> (res: bool)
    ensures
        res == readable(bytes@),
{
    if bytes.len() < HEADER_LEN || bytes[0] != 0x1c || bytes[1] != 0x84 || bytes[2] != 0x93
        || bytes[3] != 0x13 {
        return false;
    }
    let length: u64 = (bytes[4] as u64) * 0x100_0000 + (bytes[5] as u64) * 0x1_0000 + (
    bytes[6] as u64) * 0x100 + (bytes[7] as u64);
    if length > (bytes.len() - HEADER_LEN) as u64 {
        return false;
    }
    let mut run: usize = 0;
    let mut i: usize = HEADER_LEN;
    while i < bytes.len()
        invariant
            HEADER_LEN <= i <= bytes.len(),
            run < 9,
            run <= i - HEADER_LEN,
            forall|j: int| i - run <= j < i ==> #[trigger] bytes@[j] == 0xff,
            i - run > HEADER_LEN ==> bytes@[i - run - 1] != 0xff,
            forall|start: int| HEADER_LEN <= start && start + 9 <= i ==> !#[trigger] all_ones(
                bytes@,
                start,
            ),
        decreases bytes.len() - i,
    {
        if bytes[i] == 0xff {
            run += 1;
        } else {
            run = 0;
        }
        i += 1;
        if run == 9 {
            assert(all_ones(bytes@, i - 9));
            return false;
        }
        assert forall|start: int| HEADER_LEN <= start && start + 9 <= i implies
            !#[trigger] all_ones(bytes@, start) by {
            if start + 9 == i {
                assert(bytes@[i - run - 1] != 0xff);
            }
        }
    }
    true
}

/// How many values the serialized histogram has recorded; `None` where the
/// bytes are no histogram.
pub uninterp spec fn recorded_count(bytes: Seq<u8>) -> Option<u64>;

/// The highest value that the serialized histogram has recorded, up to its
/// precision; `None` where the bytes are no histogram.
pub uninterp spec fn recorded_max(bytes: Seq<u8>) -> Option<u64>;

/// The serialized form of a histogram that has recorded nothing, for values up to
/// `high` with `sigfig` significant digits; `None` where there is no such
/// histogram.
pub uninterp spec fn fresh_histogram(high: u64, sigfig: u8) -> Option<Seq<u8>>;

/// The serialized form after one more value was recorded; `None` where the bytes
/// are no histogram, the value is out of its range, or a count is too large to
/// be written.
pub uninterp spec fn with_recorded(bytes: Seq<u8>, value: u64) -> Option<Seq<u8>>;

/// Calls `Histogram::new_with_max`, and serializes the histogram with
/// `V2Serializer::serialize`: nothing is recorded in it, and it can be read.
#[verifier::external_body]
pub(crate) fn histogram_new(high: u64, sigfig: u8) -> (made: Option<Vec<u8>>)
    ensures
        match made {
            Some(bytes) => {
                &&& fresh_histogram(high, sigfig) == Some(bytes@)
                &&& readable(bytes@)
                &&& recorded_count(bytes@) == Some(0u64)
            },
            None => fresh_histogram(high, sigfig) is None,
        },
{
    let histogram: Histogram<u64> = Histogram::new_with_max(high, sigfig).ok()?;
    let mut bytes = Vec::new();
    V2Serializer::new().serialize(&histogram, &mut bytes).ok()?;
    Some(bytes)
}

/// Calls `Histogram::record` on the histogram that `Deserializer::deserialize`
/// reads from the bytes, and serializes it again with `V2Serializer::serialize`:
/// one more value is recorded, up to the largest count. What is written can be read
/// again while the counts are small.
#[verifier::external_body]
pub(crate) fn histogram_record(bytes: &Vec<u8>, value: u64) -> (recorded: Option<Vec<u8>>)
    requires
        readable(bytes@),
    ensures
        match recorded {
            Some(after) => {
                &&& with_recorded(bytes@, value) == Some(after@)
                &&& recorded_count(bytes@) is Some
                &&& recorded_count(after@) == Some(
                    if recorded_count(bytes@)->0 < u64::MAX {
                        (recorded_count(bytes@)->0 + 1) as u64
                    } else {
                        u64::MAX
                    },
                )
                &&& recorded_count(after@)->0 < LARGE_COUNT ==> readable(after@)
            },
            None => with_recorded(bytes@, value) is None,
        },
{
    let mut histogram: Histogram<u64> =
        Deserializer::new().deserialize(&mut bytes.as_slice()).ok()?;
    histogram.record(value).ok()?;
    let mut after = Vec::new();
    V2Serializer::new().serialize(&histogram, &mut after).ok()?;
    Some(after)
}

/// Calls `Histogram::len` on the histogram that `Deserializer::deserialize`
/// reads from the bytes.
#[verifier::external_body]
pub(crate) fn histogram_len(bytes: &Vec<u8>) -> (len: Option<u64>)
    requires
        readable(bytes@),
    ensures
        len == recorded_count(bytes@),
{
    let histogram: Histogram<u64> = Deserializer::new().deserialize(&mut bytes.as_slice()).ok()?;
    Some(histogram.len())
}

/// Calls `Histogram::max` on the histogram that `Deserializer::deserialize`
/// reads from the bytes.
#[verifier::external_body]
pub(crate) fn histogram_max(bytes: &Vec<u8>) -> (max: Option<u64>)
    requires
        readable(bytes@),
    ensures
        max == recorded_max(bytes@),
{
    let histogram: Histogram<u64> = Deserializer::new().deserialize(&mut bytes.as_slice()).ok()?;
    Some(histogram.max())
}

} // verus!
