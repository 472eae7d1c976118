//! Lower-casing of texts.
use compact_str::CompactString;
use vstd::prelude::*;

verus! {

/// The text in lower case, as `str::to_lowercase` makes it.
pub uninterp spec fn lowercase(text: Seq<char>) -> Seq<char>;

/// The text in lower case, as `CompactString::to_lowercase` makes it.
pub uninterp spec fn compact_lowercase(text: Seq<char>) -> Seq<char>;

/// All characters of `text` are ASCII characters.
pub open spec fn all_ascii(text: Seq<char>) -> bool {
    forall|i: int| 0 <= i < text.len() ==> (#[trigger] text[i] as u32) < 128
}

/// An ASCII letter in lower case; any other character as it is.
pub open spec fn ascii_lower(c: char) -> char {
    if 'A' <= c && c <= 'Z' {
        ((c as u32) + 32) as char
    } else {
        c
    }
}

/// The text with its ASCII letters in lower case.
pub open spec fn ascii_lowered(text: Seq<char>) -> Seq<char> {
    Seq::new(text.len(), |i: int| ascii_lower(text[i]))
}

/// Calls `str::to_lowercase`. Of a text of ASCII characters, the letters are put
/// in lower case and nothing else changes.
#[verifier::external_body]
pub(crate) fn to_lowercase(text: &str) -> (lower: String)
    ensures
        lower@ == lowercase(text@),
        all_ascii(text@) ==> lower@ == ascii_lowered(text@),
{
    text.to_lowercase()
}

/// Calls `CompactString::to_lowercase`. Of a text of ASCII characters, the
/// letters are put in lower case and nothing else changes. It differs from
/// `str::to_lowercase` where a capital sigma follows ASCII characters.
#[verifier::external_body]
pub(crate) fn to_compact_lowercase(text: &str) -> (lower: String)
    ensures
        lower@ == compact_lowercase(text@),
        all_ascii(text@) ==> lower@ == ascii_lowered(text@),
{
    CompactString::from(text).to_lowercase().into()
}

/// Putting a text of ASCII characters in lower case leaves no capital letter, keeps its
/// length and every other character, and doing so again changes nothing.
pub proof fn law_lower_case_has_no_capitals(text: Seq<char>, i: int)
    requires
        0 <= i < text.len(),
        all_ascii(text),
    ensures
        ascii_lowered(text).len() == text.len(),
        !('A' <= ascii_lowered(text)[i] && ascii_lowered(text)[i] <= 'Z'),
        !('A' <= text[i] && text[i] <= 'Z') ==> ascii_lowered(text)[i] == text[i],
        'A' <= text[i] && text[i] <= 'Z' ==> ascii_lowered(text)[i] as nat == text[i] as nat + 32,
        ascii_lowered(ascii_lowered(text)) == ascii_lowered(text),
{
    assert((text[i] as u32) < 128);
    assert forall|k: int| 0 <= k < text.len() implies ascii_lower(ascii_lower(text[k]))
        == ascii_lower(text[k]) by {
        assert((text[k] as u32) < 128);
    }
    assert(ascii_lowered(ascii_lowered(text)) =~= ascii_lowered(text));
}

} // verus!
