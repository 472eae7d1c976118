//! Plain values read from JSON and written as JSON.
use crate::outside::sorted_ids;
use crate::outside::sorted_map;
use crate::utils::text;
use std::collections::{BTreeMap, BTreeSet};
use vstd::prelude::*;
use vstd::utf8;

verus! {

/// The number that `simd_json::from_slice` reads.
pub uninterp spec fn json_number(bytes: Seq<u8>) -> Option<u64>;

/// The number, or null, that `simd_json::from_slice` reads.
pub uninterp spec fn json_optional_number(bytes: Seq<u8>) -> Option<Option<u64>>;

/// The text that `simd_json::from_slice` reads.
pub uninterp spec fn json_text(bytes: Seq<u8>) -> Option<Seq<char>>;

/// The text, or null, that `simd_json::from_slice` reads.
pub uninterp spec fn json_optional_text(bytes: Seq<u8>) -> Option<Option<Seq<char>>>;

/// The list of texts that `simd_json::from_slice` reads.
pub uninterp spec fn json_texts(bytes: Seq<u8>) -> Option<Seq<Seq<char>>>;

/// The list of ids that `simd_json::from_slice` reads.
pub uninterp spec fn json_list(bytes: Seq<u8>) -> Option<Seq<u64>>;

/// The set of ids that `simd_json::from_slice` reads, in ascending order.
pub uninterp spec fn json_set(bytes: Seq<u8>) -> Option<Seq<u64>>;

/// The rows of numbers, a signed one and two unsigned ones, that
/// `simd_json::from_slice` reads.
pub uninterp spec fn json_rows(bytes: Seq<u8>) -> Option<Seq<(i64, u64, u64)>>;

/// The object from number to number that `simd_json::from_slice` reads, in
/// ascending order of the keys.
pub uninterp spec fn json_map(bytes: Seq<u8>) -> Option<Seq<(u64, u64)>>;

/// A text as JSON, as `simd_json::to_string_pretty` writes it.
pub uninterp spec fn text_json(text: Seq<char>) -> Seq<char>;

/// A list of texts as JSON, as `simd_json::to_string_pretty` writes it.
pub uninterp spec fn texts_json(texts: Seq<Seq<char>>) -> Seq<char>;

/// A number, or null, as JSON.
pub open spec fn optional_number_json(number: Option<u64>) -> Seq<char> {
    match number {
        Some(number) => text::decimal_digits(number as nat),
        None => "null"@,
    }
}

/// A signed number, or null, as JSON.
pub open spec fn optional_signed_json(number: Option<i64>) -> Seq<char> {
    match number {
        Some(number) => text::signed_digits(number as int),
        None => "null"@,
    }
}

/// A text, or null, as JSON.
pub open spec fn optional_text_json(text: Option<Seq<char>>) -> Seq<char> {
    match text {
        Some(text) => text_json(text),
        None => "null"@,
    }
}

/// The characters of a text, where there is one.
pub open spec fn text_in(text: Option<String>) -> Option<Seq<char>> {
    match text {
        Some(text) => Some(text@),
        None => None,
    }
}

/// The longest input that `simd_json::from_slice` reads.
pub const LONGEST_INPUT: usize = 0xFFFF_FFFF;

/// The characters of each text.
pub open spec fn texts_of(texts: Seq<String>) -> Seq<Seq<char>> {
    Seq::new(texts.len(), |i: int| texts[i]@)
}

/// The decimal digits of a number as bytes.
pub open spec fn digit_bytes(number: u64) -> Seq<u8> {
    Seq::new(
        text::decimal_digits(number as nat).len(),
        |i: int| text::decimal_digits(number as nat)[i] as u8,
    )
}

/// Numbers in decimal, with commas between them.
pub open spec fn items_json(ids: Seq<u64>) -> Seq<u8>
    decreases ids.len(),
{
    if ids.len() == 0 {
        Seq::empty()
    } else if ids.len() == 1 {
        digit_bytes(ids[0])
    } else {
        items_json(ids.drop_last()).push(0x2c) + digit_bytes(ids.last())
    }
}

/// A list of ids as JSON: in brackets.
pub open spec fn list_json(ids: Seq<u64>) -> Seq<u8> {
    (seq![0x5bu8] + items_json(ids)).push(0x5d)
}

/// The decimal digits of a signed number, behind its sign, as bytes.
pub open spec fn signed_bytes(number: i64) -> Seq<u8> {
    Seq::new(
        text::signed_digits(number as int).len(),
        |i: int| text::signed_digits(number as int)[i] as u8,
    )
}

/// A row of numbers as JSON: in brackets, with commas between them.
pub open spec fn row_json(row: (i64, u64, u64)) -> Seq<u8> {
    ((seq![0x5bu8] + signed_bytes(row.0)).push(0x2c) + digit_bytes(row.1)).push(0x2c).add(
        digit_bytes(row.2),
    ).push(0x5d)
}

/// Rows with commas between them.
pub open spec fn row_items_json(rows: Seq<(i64, u64, u64)>) -> Seq<u8>
    decreases rows.len(),
{
    if rows.len() == 0 {
        Seq::empty()
    } else if rows.len() == 1 {
        row_json(rows[0])
    } else {
        row_items_json(rows.drop_last()).push(0x2c) + row_json(rows.last())
    }
}

/// A list of rows as JSON: in brackets.
pub open spec fn rows_json(rows: Seq<(i64, u64, u64)>) -> Seq<u8> {
    (seq![0x5bu8] + row_items_json(rows)).push(0x5d)
}

/// Calls `simd_json::from_slice` for a number.
#[verifier::external_body]
pub(crate) fn read_number(bytes: Vec<u8>) -> (read: Result<u64, String>)
    ensures
        match read {
            Ok(number) => json_number(bytes@) == Some(number),
            Err(_) => json_number(bytes@) is None,
        },
{
    let mut bytes = bytes;
    simd_json::from_slice(&mut bytes).map_err(|error| error.to_string())
}

/// Calls `simd_json::from_slice` for a number or null.
#[verifier::external_body]
pub(crate) fn read_optional_number(bytes: Vec<u8>) -> (read: Result<Option<u64>, String>)
    ensures
        match read {
            Ok(number) => json_optional_number(bytes@) == Some(number),
            Err(_) => json_optional_number(bytes@) is None,
        },
{
    let mut bytes = bytes;
    simd_json::from_slice(&mut bytes).map_err(|error| error.to_string())
}

/// Calls `simd_json::from_slice` for a text.
#[verifier::external_body]
pub(crate) fn read_text(bytes: Vec<u8>) -> (read: Result<String, String>)
    ensures
        match read {
            Ok(text) => json_text(bytes@) == Some(text@),
            Err(_) => json_text(bytes@) is None,
        },
{
    let mut bytes = bytes;
    simd_json::from_slice(&mut bytes).map_err(|error| error.to_string())
}

/// Calls `simd_json::from_slice` for a text or null.
#[verifier::external_body]
pub(crate) fn read_optional_text(bytes: Vec<u8>) -> (read: Result<Option<String>, String>)
    ensures
        match read {
            Ok(Some(text)) => json_optional_text(bytes@) == Some(Some(text@)),
            Ok(None) => json_optional_text(bytes@) == Some(None::<Seq<char>>),
            Err(_) => json_optional_text(bytes@) is None,
        },
{
    let mut bytes = bytes;
    simd_json::from_slice(&mut bytes).map_err(|error| error.to_string())
}

/// Calls `simd_json::from_slice` for a list of texts.
#[verifier::external_body]
pub(crate) fn read_texts(bytes: Vec<u8>) -> (read: Result<Vec<String>, String>)
    ensures
        match read {
            Ok(texts) => json_texts(bytes@) == Some(texts_of(texts@)),
            Err(_) => json_texts(bytes@) is None,
        },
{
    let mut bytes = bytes;
    simd_json::from_slice(&mut bytes).map_err(|error| error.to_string())
}

/// Calls `simd_json::from_slice` for a list of ids.
#[verifier::external_body]
pub(crate) fn read_list(bytes: Vec<u8>) -> (read: Result<Vec<u64>, String>)
    ensures
        match read {
            Ok(ids) => json_list(bytes@) == Some(ids@),
            Err(_) => json_list(bytes@) is None,
        },
{
    let mut bytes = bytes;
    simd_json::from_slice(&mut bytes).map_err(|error| error.to_string())
}

/// Calls `simd_json::from_slice` for a set of ids; the set hands them out in
/// ascending order.
#[verifier::external_body]
pub(crate) fn read_set(bytes: Vec<u8>) -> (read: Result<Vec<u64>, String>)
    ensures
        match read {
            Ok(ids) => json_set(bytes@) == Some(ids@) && sorted_ids::ascending_ids(ids@),
            Err(_) => json_set(bytes@) is None,
        },
{
    let mut bytes = bytes;
    let set: Result<BTreeSet<u64>, simd_json::Error> = simd_json::from_slice(&mut bytes);
    set.map(|ids| ids.into_iter().collect()).map_err(|error| error.to_string())
}

/// Calls `simd_json::from_slice` for a list of rows of numbers.
#[verifier::external_body]
pub(crate) fn read_rows(bytes: Vec<u8>) -> (read: Result<Vec<(i64, u64, u64)>, String>)
    ensures
        match read {
            Ok(rows) => json_rows(bytes@) == Some(rows@),
            Err(_) => json_rows(bytes@) is None,
        },
{
    let mut bytes = bytes;
    simd_json::from_slice(&mut bytes).map_err(|error| error.to_string())
}

/// Calls `simd_json::from_slice` for an object from number to number; the map
/// hands the pairs out in ascending order of the keys.
#[verifier::external_body]
pub(crate) fn read_map(bytes: Vec<u8>) -> (read: Result<Vec<(u64, u64)>, String>)
    ensures
        match read {
            Ok(pairs) => json_map(bytes@) == Some(pairs@) && sorted_map::ascending(pairs@),
            Err(_) => json_map(bytes@) is None,
        },
{
    let mut bytes = bytes;
    let map: Result<BTreeMap<u64, u64>, simd_json::Error> = simd_json::from_slice(&mut bytes);
    map.map(|pairs| pairs.into_iter().collect()).map_err(|error| error.to_string())
}

/// Calls `simd_json::to_vec` for a list of ids, which is also how a set of them
/// is written: without spaces. What was written is read back, as a list, and as a set where
/// the ids are ascending, unless it is too long to be read.
#[verifier::external_body]
pub(crate) fn write_list(ids: &Vec<u64>) -> (written: Result<Vec<u8>, String>)
    ensures
        written is Ok,
        written->Ok_0@ == list_json(ids@),
        written->Ok_0@.len() <= LONGEST_INPUT ==> json_list(written->Ok_0@) == Some(ids@),
        written->Ok_0@.len() <= LONGEST_INPUT && sorted_ids::ascending_ids(ids@) ==> json_set(
            written->Ok_0@,
        ) == Some(ids@),
{
    simd_json::to_vec(ids).map_err(|error| error.to_string())
}

/// Calls `simd_json::to_vec` for a list of rows of numbers: without spaces. What
/// was written is read back, unless it is too long to be read.
#[verifier::external_body]
pub(crate) fn write_rows(rows: &Vec<(i64, u64, u64)>) -> (written: Result<Vec<u8>, String>)
    ensures
        written is Ok,
        written->Ok_0@ == rows_json(rows@),
        written->Ok_0@.len() <= LONGEST_INPUT ==> json_rows(written->Ok_0@) == Some(rows@),
{
    simd_json::to_vec(rows).map_err(|error| error.to_string())
}

/// Calls `simd_json::to_vec` for a number: its decimal digits.
#[verifier::external_body]
pub(crate) fn write_number(number: u64) -> (written: Result<Vec<u8>, String>)
    ensures
        written is Ok,
        written->Ok_0@ == digit_bytes(number),
{
    simd_json::to_vec(&number).map_err(|error| error.to_string())
}

/// Calls `simd_json::to_string_pretty` for a number: its decimal digits. What was
/// written is read back.
#[verifier::external_body]
pub(crate) fn write_number_text(number: u64) -> (written: Result<String, String>)
    ensures
        written is Ok,
        written->Ok_0@ == text::decimal_digits(number as nat),
        json_number(utf8::encode_utf8(written->Ok_0@)) == Some(number),
{
    simd_json::to_string_pretty(&number).map_err(|error| error.to_string())
}

/// Calls `simd_json::to_string_pretty` for a number or null: the decimal digits,
/// or the word. What was written is read back.
#[verifier::external_body]
pub(crate) fn write_optional_number(number: Option<u64>) -> (written: Result<String, String>)
    ensures
        written is Ok,
        written->Ok_0@ == optional_number_json(number),
        json_optional_number(utf8::encode_utf8(written->Ok_0@)) == Some(number),
{
    simd_json::to_string_pretty(&number).map_err(|error| error.to_string())
}

/// Calls `simd_json::to_string_pretty` for a signed number or null: the decimal
/// digits behind the sign, or the word. What was written is read back, unless it
/// is below zero.
#[verifier::external_body]
pub(crate) fn write_optional_signed(number: Option<i64>) -> (written: Result<String, String>)
    ensures
        written is Ok,
        written->Ok_0@ == optional_signed_json(number),
        match number {
            Some(number) => number >= 0 ==> json_optional_number(
                utf8::encode_utf8(written->Ok_0@),
            ) == Some(Some(number as u64)),
            None => json_optional_number(utf8::encode_utf8(written->Ok_0@)) == Some(None::<u64>),
        },
{
    simd_json::to_string_pretty(&number).map_err(|error| error.to_string())
}

/// Calls `simd_json::to_string_pretty` for a text. What was written is read back,
/// unless it is too long to be read.
#[verifier::external_body]
pub(crate) fn write_text(text: &String) -> (written: Result<String, String>)
    ensures
        written is Ok,
        written->Ok_0@ == text_json(text@),
        utf8::encode_utf8(written->Ok_0@).len() <= LONGEST_INPUT ==> json_text(
            utf8::encode_utf8(written->Ok_0@),
        ) == Some(text@),
{
    simd_json::to_string_pretty(text).map_err(|error| error.to_string())
}

/// Calls `simd_json::to_string_pretty` for a text or null: as the text alone, or
/// the word. What was written is read back, unless it is too long to be read.
#[verifier::external_body]
pub(crate) fn write_optional_text(text: &Option<String>) -> (written: Result<String, String>)
    ensures
        written is Ok,
        written->Ok_0@ == optional_text_json(text_in(*text)),
        utf8::encode_utf8(written->Ok_0@).len() <= LONGEST_INPUT ==> json_optional_text(
            utf8::encode_utf8(written->Ok_0@),
        ) == Some(text_in(*text)),
{
    simd_json::to_string_pretty(text).map_err(|error| error.to_string())
}

/// Calls `simd_json::to_string_pretty` for a list of texts. What was written is
/// read back, unless it is too long to be read.
#[verifier::external_body]
pub(crate) fn write_texts(texts: &Vec<String>) -> (written: Result<String, String>)
    ensures
        written is Ok,
        written->Ok_0@ == texts_json(texts_of(texts@)),
        utf8::encode_utf8(written->Ok_0@).len() <= LONGEST_INPUT ==> json_texts(
            utf8::encode_utf8(written->Ok_0@),
        ) == Some(texts_of(texts@)),
{
    simd_json::to_string_pretty(texts).map_err(|error| error.to_string())
}

} // verus!
