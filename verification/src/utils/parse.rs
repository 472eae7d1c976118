//! Reading numbers from text.
use crate::utils::text;
use vstd::prelude::*;

verus! {

/// `c` is a decimal digit.
pub open spec fn is_digit(c: char) -> bool {
    '0' <= c && c <= '9'
}

/// The number that decimal digits stand for.
pub open spec fn digits_value(digits: Seq<char>) -> nat
    decreases digits.len(),
{
    if digits.len() == 0 {
        0
    } else {
        digits_value(digits.drop_last()) * 10 + (digits.last() as nat - '0' as nat) as nat
    }
}

/// `text` is one digit or more, and nothing else.
pub open spec fn all_digits(text: Seq<char>) -> bool {
    text.len() > 0 && forall|i: int| 0 <= i < text.len() ==> is_digit(#[trigger] text[i])
}

/// `text` without a plus sign in front.
pub open spec fn without_plus(text: Seq<char>) -> Seq<char> {
    if text.len() > 0 && text[0] == '+' {
        text.skip(1)
    } else {
        text
    }
}

/// The number up to `max` that `text` stands for: decimal digits, with or
/// without a plus sign in front.
pub open spec fn number_of(text: Seq<char>, max: u64) -> Option<u64> {
    let digits = without_plus(text);
    if all_digits(digits) && digits_value(digits) <= max {
        Some(digits_value(digits) as u64)
    } else {
        None
    }
}

/// More digits do not make the number smaller.
proof fn lemma_prefix_value(digits: Seq<char>, i: int)
    requires
        0 <= i <= digits.len(),
    ensures
        digits_value(digits.take(i)) <= digits_value(digits),
    decreases digits.len() - i,
{
    if i == digits.len() {
        assert(digits.take(i) =~= digits);
    } else {
        lemma_prefix_value(digits, i + 1);
        assert(digits.take(i + 1).drop_last() =~= digits.take(i));
    }
}

/// The characters of `text`.
pub fn chars_of(text: &str) -> (chars: Vec<char>)
    ensures
        chars@ == text@,
{
    let mut chars: Vec<char> = Vec::new();
    let len: usize = text.unicode_len();
    let mut i: usize = 0;
    while i < len
        invariant
            i <= len,
            len == text@.len(),
            chars@ == text@.take(i as int),
        decreases len - i,
    {
        chars.push(text.get_char(i));
        i += 1;
        assert(chars@ =~= text@.take(i as int));
    }
    assert(text@.take(len as int) =~= text@);
    chars
}

/// Reads the number up to `max` that `text` stands for.
pub fn parse_number(text: &Vec<char>, max: u64) -> (number: Option<u64>)
    ensures
        number == number_of(text@, max),
{
    let start: usize = if text.len() > 0 && text[0] == '+' {
        1
    } else {
        0
    };
    let ghost digits = without_plus(text@);
    assert(digits =~= text@.skip(start as int));
    if start == text.len() {
        return None;
    }
    let mut value: u64 = 0;
    let mut i: usize = start;
    assert(digits.take(0) =~= Seq::<char>::empty());
    while i < text.len()
        invariant
            start <= i <= text.len(),
            start < text.len(),
            digits == text@.skip(start as int),
            digits == without_plus(text@),
            forall|j: int| 0 <= j < i - start ==> is_digit(#[trigger] digits[j]),
            value == digits_value(digits.take(i - start)),
            value <= max,
        decreases text.len() - i,
    {
        let c = text[i];
        assert(digits[i - start] == c);
        if c < '0' || c > '9' {
            assert(!is_digit(digits[i - start]));
            return None;
        }
        let d: u64 = (c as u32 - '0' as u32) as u64;
        proof {
            assert(digits.take(i - start + 1).drop_last() =~= digits.take(i - start));
            lemma_prefix_value(digits, i - start + 1);
        }
        if value > (u64::MAX - d) / 10 {
            assert(value * 10 + d > u64::MAX) by (nonlinear_arith)
                requires
                    value > (u64::MAX - d) / 10,
                    d <= 9,
            ;
            return None;
        }
        value = value * 10 + d;
        if value > max {
            return None;
        }
        i += 1;
    }
    assert(digits.take(text.len() - start) =~= digits);
    Some(value)
}

/// The first position of `mark` in `text` from `from` on, or the length where
/// there is none.
pub open spec fn first_at(text: Seq<char>, mark: char, from: int, at: int) -> bool {
    &&& from <= at <= text.len()
    &&& forall|i: int| from <= i < at ==> #[trigger] text[i] != mark
    &&& at < text.len() ==> text[at] == mark
}

/// Finds `mark` in `text` from `from` on.
pub fn find_char(text: &Vec<char>, mark: char, from: usize) -> (at: usize)
    requires
        from <= text@.len(),
    ensures
        first_at(text@, mark, from as int, at as int),
{
    let mut at: usize = from;
    while at < text.len()
        invariant
            from <= at <= text@.len(),
            forall|i: int| from <= i < at ==> #[trigger] text@[i] != mark,
        decreases text.len() - at,
    {
        if text[at] == mark {
            return at;
        }
        at += 1;
    }
    at
}

/// The characters of `text` from `from` up to `to`.
pub fn slice_chars(text: &Vec<char>, from: usize, to: usize) -> (slice: Vec<char>)
    requires
        from <= to <= text@.len(),
    ensures
        slice@ == text@.subrange(from as int, to as int),
{
    let mut slice: Vec<char> = Vec::new();
    let mut i: usize = from;
    while i < to
        invariant
            from <= i <= to <= text@.len(),
            slice@ == text@.subrange(from as int, i as int),
        decreases to - i,
    {
        slice.push(text[i]);
        i += 1;
        assert(slice@ =~= text@.subrange(from as int, i as int));
    }
    slice
}

/// The first position of `mark` in `text` from `from` on, or the length where
/// there is none.
pub open spec fn position(text: Seq<char>, mark: char, from: int) -> int
    decreases text.len() - from,
{
    if from >= text.len() {
        text.len() as int
    } else if text[from] == mark {
        from
    } else {
        position(text, mark, from + 1)
    }
}

/// What was found is the first position.
pub proof fn lemma_position(text: Seq<char>, mark: char, from: int, at: int)
    requires
        0 <= from,
        first_at(text, mark, from, at),
    ensures
        position(text, mark, from) == at,
    decreases at - from,
{
    if from < at {
        lemma_position(text, mark, from + 1, at);
    }
}

/// `word` stands in `text` from `at` on.
pub open spec fn word_at(text: Seq<char>, word: Seq<char>, at: int) -> bool {
    at + word.len() <= text.len() && text.subrange(at, at + word.len()) == word
}

/// Whether `word` stands in `text` from `at` on.
pub fn has_word_at(text: &Vec<char>, word: &Vec<char>, at: usize) -> (found: bool)
    requires
        at <= text@.len(),
    ensures
        found == word_at(text@, word@, at as int),
{
    if word.len() > text.len() - at {
        return false;
    }
    let mut i: usize = 0;
    while i < word.len()
        invariant
            i <= word.len(),
            at + word.len() <= text.len(),
            forall|j: int| 0 <= j < i ==> #[trigger] word@[j] == text@[at + j],
        decreases word.len() - i,
    {
        if word[i] != text[at + i] {
            assert(text@.subrange(at as int, at + word.len())[i as int] == text@[at + i]);
            return false;
        }
        i += 1;
    }
    assert(text@.subrange(at as int, at + word.len()) =~= word@);
    true
}

/// `word` stands somewhere in `text`.
pub open spec fn contains_word(text: Seq<char>, word: Seq<char>) -> bool {
    exists|at: int| 0 <= at <= text.len() && #[trigger] word_at(text, word, at)
}

/// Whether `word` stands somewhere in `text`.
pub fn has_word(text: &str, word: &str) -> (found: bool)
    ensures
        found == contains_word(text@, word@),
{
    let chars = chars_of(text);
    let word_chars = chars_of(word);
    let mut at: usize = 0;
    loop
        invariant
            at <= chars@.len(),
            chars@ == text@,
            word_chars@ == word@,
            forall|i: int| 0 <= i < at ==> !#[trigger] word_at(text@, word@, i),
        decreases chars@.len() - at,
    {
        if has_word_at(&chars, &word_chars, at) {
            return true;
        }
        if at == chars.len() {
            return false;
        }
        at += 1;
    }
}

/// `c` is white space.
pub open spec fn is_white(c: char) -> bool {
    ||| '\u{9}' <= c && c <= '\u{d}'
    ||| c == '\u{20}'
    ||| c == '\u{85}'
    ||| c == '\u{a0}'
    ||| c == '\u{1680}'
    ||| '\u{2000}' <= c && c <= '\u{200a}'
    ||| c == '\u{2028}'
    ||| c == '\u{2029}'
    ||| c == '\u{202f}'
    ||| c == '\u{205f}'
    ||| c == '\u{3000}'
}

/// Whether `c` is white space.
fn white(c: char) -> (is: bool)
    ensures
        is == is_white(c),
{
    ('\u{9}' <= c && c <= '\u{d}') || c == '\u{20}' || c == '\u{85}' || c == '\u{a0}' || c
        == '\u{1680}' || ('\u{2000}' <= c && c <= '\u{200a}') || c == '\u{2028}' || c == '\u{2029}'
        || c == '\u{202f}' || c == '\u{205f}' || c == '\u{3000}'
}

/// `text` without white space in front.
pub open spec fn trim_start(text: Seq<char>) -> Seq<char>
    decreases text.len(),
{
    if text.len() > 0 && is_white(text[0]) {
        trim_start(text.skip(1))
    } else {
        text
    }
}

/// `text` without white space behind.
pub open spec fn trim_end(text: Seq<char>) -> Seq<char>
    decreases text.len(),
{
    if text.len() > 0 && is_white(text.last()) {
        trim_end(text.drop_last())
    } else {
        text
    }
}

/// The characters of `text` from `from` up to `to`, without white space in
/// front and behind.
pub fn trim_chars(text: &Vec<char>, from: usize, to: usize) -> (trimmed: Vec<char>)
    requires
        from <= to <= text@.len(),
    ensures
        trimmed@ == trim_end(trim_start(text@.subrange(from as int, to as int))),
{
    let ghost whole = text@.subrange(from as int, to as int);
    let mut first: usize = from;
    while first < to && white(text[first])
        invariant
            from <= first <= to <= text@.len(),
            trim_start(whole) == trim_start(text@.subrange(first as int, to as int)),
        decreases to - first,
    {
        assert(text@.subrange(first as int, to as int).skip(1) =~= text@.subrange(
            first + 1,
            to as int,
        ));
        first += 1;
    }
    let ghost rest = text@.subrange(first as int, to as int);
    let mut end: usize = to;
    while end > first && white(text[end - 1])
        invariant
            first <= end <= to <= text@.len(),
            trim_end(rest) == trim_end(text@.subrange(first as int, end as int)),
        decreases end,
    {
        assert(text@.subrange(first as int, end as int).drop_last() =~= text@.subrange(
            first as int,
            end - 1,
        ));
        end -= 1;
    }
    slice_chars(text, first, end)
}

/// The digits of a number stand for it.
proof fn lemma_digits_value(n: nat)
    ensures
        all_digits(text::decimal_digits(n)),
        digits_value(text::decimal_digits(n)) == n,
    decreases n,
{
    let digits = text::decimal_digits(n);
    if n < 10 {
        assert(digits.drop_last() =~= Seq::empty());
        assert(digits_value(digits.drop_last()) == 0);
    } else {
        lemma_digits_value(n / 10);
        assert(digits.drop_last() =~= text::decimal_digits(n / 10));
    }
}

/// A number that was written in decimal is read back.
pub proof fn law_decimal_is_read_back(number: u64)
    ensures
        number_of(text::decimal_digits(number as nat), u64::MAX) == Some(number),
{
    lemma_digits_value(number as nat);
    let digits = text::decimal_digits(number as nat);
    assert(is_digit(digits[0]));
}

/// A number in decimal is one digit or more and nothing else.
pub proof fn law_decimal_is_digits(number: u64)
    ensures
        all_digits(text::decimal_digits(number as nat)),
        number_of(text::decimal_digits(number as nat), number) == Some(number),
        number > 0 ==> number_of(text::decimal_digits(number as nat), (number - 1) as u64) is None,
{
    lemma_digits_value(number as nat);
    let digits = text::decimal_digits(number as nat);
    assert(is_digit(digits[0]));
    assert(digits[0] != '+');
}

/// A text stands for a number only where it is digits, with or without one plus sign in
/// front; the sign makes no difference, a digit more makes the number ten times as large
/// and adds the digit, and a number above the limit is none.
pub proof fn law_numbers_are_digits(text: Seq<char>, more: char, max: u64)
    ensures
        number_of(text, max) matches Some(number) ==> number <= max,
        number_of(text, max) is Some && text[0] != '+' ==> all_digits(text),
        all_digits(text) ==> number_of(seq!['+'] + text, max) == number_of(text, max),
        is_digit(more) && all_digits(text) && digits_value(text) * 10 + (more as nat - '0' as nat)
            <= max ==> number_of(text.push(more), max) == Some(
            (digits_value(text) * 10 + (more as nat - '0' as nat)) as u64,
        ),
        number_of(Seq::<char>::empty(), max) is None,
{
    assert(text.push(more).drop_last() =~= text);
    assert((seq!['+'] + text).skip(1) =~= text);
    if is_digit(more) && all_digits(text) {
        assert(is_digit(text[0]));
        assert forall|i: int| 0 <= i < text.push(more).len() implies is_digit(
            #[trigger] text.push(more)[i],
        ) by {
            if i < text.len() {
                assert(text.push(more)[i] == text[i]);
            }
        }
        assert(text.push(more)[0] == text[0]);
    }
    if all_digits(text) {
        assert(is_digit(text[0]));
    }
}

/// What is left of a text without the white space around it begins and ends with
/// something else, and a text that does so stays as it is.
pub proof fn law_trimmed_text_has_no_white_ends(text: Seq<char>)
    ensures
        trim_start(text).len() > 0 ==> !is_white(trim_start(text)[0]),
        trim_end(text).len() > 0 ==> !is_white(trim_end(text).last()),
        text.len() > 0 && !is_white(text[0]) ==> trim_start(text) == text,
        text.len() > 0 && !is_white(text.last()) ==> trim_end(text) == text,
        trim_start(text).len() <= text.len() && trim_start(text) == text.skip(
            text.len() - trim_start(text).len(),
        ),
        trim_end(text).len() <= text.len() && trim_end(text) == text.take(
            trim_end(text).len() as int,
        ),
        forall|i: int|
            0 <= i < text.len() - trim_start(text).len() ==> is_white(#[trigger] text[i]),
        is_white(' ') && is_white('\u{9}') && is_white('\u{a}') && !is_white('a') && !is_white('0'),
    decreases text.len(),
{
    if text.len() > 0 && is_white(text[0]) {
        law_trimmed_text_has_no_white_ends(text.skip(1));
        let rest = text.skip(1);
        let left = trim_start(rest);
        assert(text.skip(text.len() - left.len()) =~= rest.skip(rest.len() - left.len()));
        assert forall|i: int| 0 <= i < text.len() - left.len() implies is_white(
            #[trigger] text[i],
        ) by {
            if i > 0 {
                assert(rest[i - 1] == text[i]);
            }
        }
    } else {
        assert(text.skip(0) =~= text);
    }
    if text.len() > 0 && is_white(text.last()) {
        law_trimmed_text_has_no_white_ends(text.drop_last());
        let rest = text.drop_last();
        assert(text.take(trim_end(rest).len() as int) =~= rest.take(trim_end(rest).len() as int));
    } else {
        assert(text.take(text.len() as int) =~= text);
    }
}

/// A position that is found is the first one: the mark stands there, and nowhere before;
/// the length of the text says that there is none.
pub proof fn law_position_is_the_first(text: Seq<char>, mark: char, from: int)
    requires
        0 <= from <= text.len(),
    ensures
        first_at(text, mark, from, position(text, mark, from)),
        forall|i: int|
            from <= i < position(text, mark, from) ==> #[trigger] text[i] != mark,
        position(text, mark, from) < text.len() ==> text[position(text, mark, from)] == mark,
        from <= position(text, mark, from) <= text.len(),
    decreases text.len() - from,
{
    if from < text.len() && text[from] != mark {
        law_position_is_the_first(text, mark, from + 1);
    }
}

/// A word stands in a text exactly where the text is something, the word, and something
/// again.
pub proof fn law_word_stands_between(before: Seq<char>, word: Seq<char>, after: Seq<char>)
    ensures
        word_at(before + word + after, word, before.len() as int),
        contains_word(before + word + after, word),
        word.len() > 0 ==> !contains_word(Seq::<char>::empty(), word),
{
    let text = before + word + after;
    assert(text.subrange(before.len() as int, before.len() as int + word.len()) =~= word);
    assert(word_at(text, word, before.len() as int));
}

/// White space is what text has between its words: in ASCII the space and the marks
/// that move on to another place or line, and no other character; beyond it the
/// spaces of any width and the marks that end a line or a paragraph.
pub proof fn law_white_space_separates(c: char)
    ensures
        (c as u32) < 128 ==> (is_white(c) <==> seq![
            ' ',
            '\t',
            '\n',
            '\u{b}',
            '\u{c}',
            '\r',
        ].contains(c)),
        (c as u32) >= 128 ==> (is_white(c) <==> seq![
            '\u{85}',
            '\u{a0}',
            '\u{1680}',
            '\u{2000}',
            '\u{2001}',
            '\u{2002}',
            '\u{2003}',
            '\u{2004}',
            '\u{2005}',
            '\u{2006}',
            '\u{2007}',
            '\u{2008}',
            '\u{2009}',
            '\u{200a}',
            '\u{2028}',
            '\u{2029}',
            '\u{202f}',
            '\u{205f}',
            '\u{3000}',
        ].contains(c)),
        is_digit(c) ==> !is_white(c),
{
    let near = seq![' ', '\t', '\n', '\u{b}', '\u{c}', '\r'];
    assert(near[0] == ' ' && near[1] == '\t' && near[2] == '\n');
    assert(near[3] == '\u{b}' && near[4] == '\u{c}' && near[5] == '\r');
    let far = seq![
        '\u{85}',
        '\u{a0}',
        '\u{1680}',
        '\u{2000}',
        '\u{2001}',
        '\u{2002}',
        '\u{2003}',
        '\u{2004}',
        '\u{2005}',
        '\u{2006}',
        '\u{2007}',
        '\u{2008}',
        '\u{2009}',
        '\u{200a}',
        '\u{2028}',
        '\u{2029}',
        '\u{202f}',
        '\u{205f}',
        '\u{3000}',
    ];
    assert(far[0] == '\u{85}' && far[1] == '\u{a0}' && far[2] == '\u{1680}');
    assert(far[3] == '\u{2000}' && far[4] == '\u{2001}' && far[5] == '\u{2002}');
    assert(far[6] == '\u{2003}' && far[7] == '\u{2004}' && far[8] == '\u{2005}');
    assert(far[9] == '\u{2006}' && far[10] == '\u{2007}' && far[11] == '\u{2008}');
    assert(far[12] == '\u{2009}' && far[13] == '\u{200a}' && far[14] == '\u{2028}');
    assert(far[15] == '\u{2029}' && far[16] == '\u{202f}' && far[17] == '\u{205f}');
    assert(far[18] == '\u{3000}');
}

} // verus!
