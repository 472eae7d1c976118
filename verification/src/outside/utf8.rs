//! Text in UTF-8.
use vstd::prelude::*;
use vstd::utf8;

verus! {

/// Calls `String::from_utf8`: the text that the bytes encode, unless they are no
/// UTF-8.
#[verifier::external_body]
pub(crate) fn text_of(bytes: Vec<u8>) -> (text: Result<String, String>)
    ensures
        match text {
            Ok(text) => utf8::valid_utf8(bytes@) && text@ == utf8::decode_utf8(bytes@),
            Err(_) => !utf8::valid_utf8(bytes@),
        },
{
    String::from_utf8(bytes).map_err(|error| error.to_string())
}

} // verus!
