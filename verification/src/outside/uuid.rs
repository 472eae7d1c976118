//! `uuid`'s identifiers, carried as their 128 bits.
use uuid::Uuid;
use vstd::prelude::*;

verus! {

/// The `k`-th hexadecimal digit of an identifier, from the highest one.
pub open spec fn hex_digit(bits: u128, k: int) -> u128 {
    (bits >> ((4 * (31 - k)) as u128)) & 0xf
}

/// A hexadecimal digit as a lower-case character.
pub open spec fn hex_char(digit: u128) -> char {
    if digit < 10 {
        (('0' as u32) + digit) as char
    } else {
        (('a' as u32) + (digit - 10)) as char
    }
}

/// The hyphenated lower-case text of an identifier: its 32 hexadecimal digits in
/// groups of eight, four, four, four and twelve.
pub open spec fn hyphenated(bits: u128) -> Seq<char> {
    Seq::new(
        36,
        |i: int|
            if i == 8 || i == 13 || i == 18 || i == 23 {
                '-'
            } else if i < 8 {
                hex_char(hex_digit(bits, i))
            } else if i < 13 {
                hex_char(hex_digit(bits, i - 1))
            } else if i < 18 {
                hex_char(hex_digit(bits, i - 2))
            } else if i < 23 {
                hex_char(hex_digit(bits, i - 3))
            } else {
                hex_char(hex_digit(bits, i - 4))
            },
    )
}

/// Identifiers whose digits up to the `k`-th are the same are the same down to it.
proof fn lemma_same_digits(a: u128, b: u128, k: int)
    requires
        0 <= k < 32,
        forall|j: int| 0 <= j <= k ==> #[trigger] hex_digit(a, j) == hex_digit(b, j),
    ensures
        a >> ((4 * (31 - k)) as u128) == b >> ((4 * (31 - k)) as u128),
    decreases k,
{
    let low = (4 * (31 - k)) as u128;
    assert(hex_digit(a, k) == hex_digit(b, k));
    if k == 0 {
        assert(a >> low == (a >> low) & 0xf) by (bit_vector)
            requires
                low == 124,
        ;
        assert(b >> low == (b >> low) & 0xf) by (bit_vector)
            requires
                low == 124,
        ;
    } else {
        lemma_same_digits(a, b, k - 1);
        let high = (4 * (31 - (k - 1))) as u128;
        assert(a >> low == ((a >> high) << 4) | ((a >> low) & 0xf)) by (bit_vector)
            requires
                high == low + 4,
                low < 124,
        ;
        assert(b >> low == ((b >> high) << 4) | ((b >> low) & 0xf)) by (bit_vector)
            requires
                high == low + 4,
                low < 124,
        ;
    }
}

/// Different digits have different characters.
proof fn lemma_hex_chars_differ(x: u128, y: u128)
    requires
        x <= 0xf,
        y <= 0xf,
        hex_char(x) == hex_char(y),
    ensures
        x == y,
{
}

/// Different identifiers have different texts.
pub proof fn law_texts_tell_identifiers_apart(a: u128, b: u128)
    requires
        hyphenated(a) == hyphenated(b),
    ensures
        a == b,
{
    assert forall|k: int| 0 <= k <= 31 implies #[trigger] hex_digit(a, k) == hex_digit(b, k) by {
        let i = if k < 8 {
            k
        } else if k < 12 {
            k + 1
        } else if k < 16 {
            k + 2
        } else if k < 20 {
            k + 3
        } else {
            k + 4
        };
        let shift = (4 * (31 - k)) as u128;
        assert((a >> shift) & 0xf <= 0xf) by (bit_vector);
        assert((b >> shift) & 0xf <= 0xf) by (bit_vector);
        assert(hyphenated(a)[i] == hex_char(hex_digit(a, k)));
        assert(hyphenated(b)[i] == hex_char(hex_digit(b, k)));
        lemma_hex_chars_differ(hex_digit(a, k), hex_digit(b, k));
    }
    lemma_same_digits(a, b, 31);
    assert(a >> 0u128 == a) by (bit_vector);
    assert(b >> 0u128 == b) by (bit_vector);
}

/// Calls `Uuid::new_v4`: a random identifier, of which nothing is known.
#[verifier::external_body]
pub(crate) fn random_uuid() -> (bits: u128) {
    Uuid::new_v4().as_u128()
}

/// Calls `Uuid`'s `to_string` on the identifier with these bits: the hyphenated
/// lower-case form.
#[verifier::external_body]
pub(crate) fn uuid_text(bits: u128) -> (text: String)
    ensures
        text@ == hyphenated(bits),
{
    Uuid::from_u128(bits).to_string()
}

/// The text of an identifier has four hyphens, at the ends of its groups, and digits
/// everywhere else.
pub proof fn law_identifier_text_has_its_groups(bits: u128)
    ensures
        hyphenated(bits).len() == 36,
        hyphenated(bits)[8] == '-' && hyphenated(bits)[13] == '-' && hyphenated(bits)[18] == '-'
            && hyphenated(bits)[23] == '-',
        hyphenated(bits)[0] == hex_char(hex_digit(bits, 0)),
        hyphenated(bits)[35] == hex_char(hex_digit(bits, 31)),
{
}

} // verus!
