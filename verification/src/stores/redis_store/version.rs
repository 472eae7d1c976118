//! Versions of the Redis server.
use crate::utils::parse::{
    self, chars_of, find_char, has_word_at, parse_number, slice_chars, trim_chars,
};
use vstd::prelude::*;

verus! {

/// The version of a Redis server.
#[derive(Debug, PartialEq, Eq, PartialOrd, Ord, Copy, Clone, Structural)]
pub struct RedisVersion {
    /// Major version number.
    pub major: u32,
    /// Minor version number.
    pub minor: u32,
    /// Patch version number.
    pub patch: u32,
}

/// The part of `text` from `from` up to `to` as a number.
pub open spec fn part(text: Seq<char>, from: int, to: int) -> Option<u64> {
    parse::number_of(text.subrange(from, to), u32::MAX as u64)
}

/// The version that `text` stands for: `major.minor` or `major.minor.patch`.
pub open spec fn version_of(text: Seq<char>) -> Option<RedisVersion> {
    let first = parse::position(text, '.', 0);
    let second = parse::position(text, '.', first + 1);
    if first >= text.len() {
        None
    } else {
        match (
            part(text, 0, first),
            part(text, first + 1, second),
            if second >= text.len() {
                Some(0u64)
            } else {
                part(text, second + 1, text.len() as int)
            },
        ) {
            (Some(major), Some(minor), Some(patch)) => Some(
                RedisVersion { major: major as u32, minor: minor as u32, patch: patch as u32 },
            ),
            _ => None,
        }
    }
}

/// The start of the first line from `from` on, itself a line's start, that
/// begins with `word`.
pub open spec fn line_with(text: Seq<char>, word: Seq<char>, from: int) -> Option<int>
    decreases text.len() - from,
{
    if from < 0 || from > text.len() {
        None
    } else if parse::word_at(text, word, from) {
        Some(from)
    } else {
        let end = first_break(text, from);
        if from <= end < text.len() {
            line_with(text, word, end + 1)
        } else {
            None
        }
    }
}

/// The end of the line that `from` is in.
pub open spec fn first_break(text: Seq<char>, from: int) -> int {
    parse::position(text, '\n', from)
}

/// The version in the report that `INFO server` gives: what stands behind
/// `redis_version:`, without white space around it, in the first line that
/// begins so.
pub open spec fn reported_version(raw: Seq<char>) -> Option<RedisVersion> {
    match line_with(raw, "redis_version:"@, 0) {
        None => None,
        Some(start) => version_of(
            parse::trim_end(
                parse::trim_start(raw.subrange(start + 14, first_break(raw, start))),
            ),
        ),
    }
}

/// The start of the first line that begins with `word`.
fn find_line(text: &Vec<char>, word: &Vec<char>) -> (start: Option<usize>)
    ensures
        match start {
            Some(start) => line_with(text@, word@, 0) == Some(start as int),
            None => line_with(text@, word@, 0) is None,
        },
{
    let mut from: usize = 0;
    loop
        invariant
            from <= text@.len(),
            line_with(text@, word@, 0) == line_with(text@, word@, from as int),
        decreases text@.len() - from,
    {
        if has_word_at(text, word, from) {
            return Some(from);
        }
        let end: usize = find_char(text, '\n', from);
        proof {
            parse::lemma_position(text@, '\n', from as int, end as int);
        }
        if end == text.len() {
            return None;
        }
        from = end + 1;
    }
}

/// Reads a version.
fn read_version(text: &Vec<char>) -> (version: Option<RedisVersion>)
    ensures
        version == version_of(text@),
{
    let first: usize = find_char(text, '.', 0);
    proof {
        parse::lemma_position(text@, '.', 0, first as int);
    }
    if first == text.len() {
        return None;
    }
    let second: usize = find_char(text, '.', first + 1);
    proof {
        parse::lemma_position(text@, '.', first + 1, second as int);
    }
    let major: u64 = match parse_number(&slice_chars(text, 0, first), u32::MAX as u64) {
        Some(major) => major,
        None => return None,
    };
    let minor: u64 = match parse_number(&slice_chars(text, first + 1, second), u32::MAX as u64) {
        Some(minor) => minor,
        None => return None,
    };
    let patch: u64 = if second == text.len() {
        0
    } else {
        match parse_number(&slice_chars(text, second + 1, text.len()), u32::MAX as u64) {
            Some(patch) => patch,
            None => return None,
        }
    };
    Some(RedisVersion { major: major as u32, minor: minor as u32, patch: patch as u32 })
}

impl RedisVersion {
    /// Reads the version from the report that `INFO server` gives.
    pub fn parse(raw: &str) -> (version: Option<Self>)
        ensures
            version == reported_version(raw@),
    {
        proof {
            reveal_strlit("redis_version:");
        }
        let text = chars_of(raw);
        let word = chars_of("redis_version:");
        let start: usize = match find_line(&text, &word) {
            Some(start) => start,
            None => return None,
        };
        proof {
            lemma_line_begins(text@, word@, 0);
        }
        let end: usize = find_char(&text, '\n', start);
        proof {
            parse::lemma_position(text@, '\n', start as int, end as int);
            lemma_no_break_in(text@, word@, start as int, end as int);
        }
        let version = trim_chars(&text, start + 14, end);
        read_version(&version)
    }

    /// This version is not below `other`.
    pub open spec fn reaches(self, other: RedisVersion) -> bool {
        ||| self.major > other.major
        ||| self.major == other.major && self.minor > other.minor
        ||| self.major == other.major && self.minor == other.minor && self.patch >= other.patch
    }

    /// Whether this version is not below the one that `version` stands for;
    /// nothing where it stands for none.
    pub fn is_at_least(&self, version: &str) -> (reached: Option<bool>)
        ensures
            match version_of(version@) {
                Some(other) => reached == Some(self.reaches(other)),
                None => reached is None,
            },
    {
        let text = chars_of(version);
        match read_version(&text) {
            Some(other) => Some(
                self.major > other.major || (self.major == other.major && (self.minor > other.minor
                    || (self.minor == other.minor && self.patch >= other.patch))),
            ),
            None => None,
        }
    }
}

/// Where a line with `word` was found, `word` stands.
proof fn lemma_line_begins(text: Seq<char>, word: Seq<char>, from: int)
    ensures
        line_with(text, word, from) matches Some(start) ==> from <= start <= text.len()
            && parse::word_at(text, word, start),
    decreases text.len() - from,
{
    if 0 <= from <= text.len() && !parse::word_at(text, word, from) {
        let end = first_break(text, from);
        if from <= end < text.len() {
            lemma_line_begins(text, word, end + 1);
        }
    }
}

/// A line with `redis_version:` does not end before its fourteen characters do.
proof fn lemma_no_break_in(text: Seq<char>, word: Seq<char>, start: int, end: int)
    requires
        word == "redis_version:"@,
        0 <= start,
        parse::word_at(text, word, start),
        parse::first_at(text, '\n', start, end),
    ensures
        start + 14 <= end,
{
    reveal_strlit("redis_version:");
    if end < start + 14 {
        assert(text.subrange(start, start + 14)[end - start] == text[end]);
        assert(word[end - start] != '\n');
    }
}

/// Versions are in order: of two, one reaches the other, and two that reach
/// each other are the same.
pub proof fn law_versions_are_ordered(a: RedisVersion, b: RedisVersion, c: RedisVersion)
    ensures
        a.reaches(b) || b.reaches(a),
        a.reaches(b) && b.reaches(a) ==> a == b,
        a.reaches(b) && b.reaches(c) ==> a.reaches(c),
{
}

} // verus!
