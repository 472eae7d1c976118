//! Counters as bytes.
use vstd::prelude::*;

verus! {

/// The number that bytes stand for, the most significant one first.
pub open spec fn big_endian(bytes: Seq<u8>) -> nat
    decreases bytes.len(),
{
    if bytes.len() == 0 {
        0
    } else {
        big_endian(bytes.drop_last()) * 256 + bytes.last() as nat
    }
}

/// A number with its sign in the highest of 64 bits.
pub open spec fn with_sign(number: nat) -> int {
    if number < 0x8000_0000_0000_0000 {
        number as int
    } else {
        number - 0x1_0000_0000_0000_0000
    }
}

/// The number that a stored counter stands for: eight bytes, the most
/// significant one first; zero for anything else.
pub open spec fn stored_number(bytes: Seq<u8>) -> int {
    if bytes.len() == 8 {
        with_sign(big_endian(bytes))
    } else {
        0
    }
}

/// The same number without a sign.
pub open spec fn stored_count(bytes: Seq<u8>) -> u64 {
    if bytes.len() == 8 {
        big_endian(bytes) as u64
    } else {
        0
    }
}

/// More bytes make a larger bound.
proof fn lemma_bound(bytes: Seq<u8>)
    ensures
        big_endian(bytes) < vstd::arithmetic::power::pow(256, bytes.len()),
    decreases bytes.len(),
{
    if bytes.len() == 0 {
        vstd::arithmetic::power::lemma_pow0(256);
    } else {
        lemma_bound(bytes.drop_last());
        let n = (bytes.len() - 1) as nat;
        vstd::arithmetic::power::lemma_pow_adds(256, n, 1);
        vstd::arithmetic::power::lemma_pow1(256);
        assert(vstd::arithmetic::power::pow(256, bytes.len()) == vstd::arithmetic::power::pow(
            256,
            n,
        ) * 256);
    }
}

/// Eight bytes fit in 64 bits.
proof fn lemma_eight_bytes(bytes: Seq<u8>)
    requires
        bytes.len() <= 8,
    ensures
        big_endian(bytes) < 0x1_0000_0000_0000_0000,
{
    lemma_bound(bytes);
    vstd::arithmetic::power::lemma_pow_increases(256, bytes.len(), 8);
    lemma_pow_eight();
}

/// The eighth power of 256.
proof fn lemma_pow_eight()
    ensures
        vstd::arithmetic::power::pow(256, 8) == 0x1_0000_0000_0000_0000,
{
    reveal_with_fuel(vstd::arithmetic::power::pow, 9);
}

/// The number of eight bytes.
fn read_count(src: &[u8]) -> (count: u64)
    requires
        src@.len() == 8,
    ensures
        count == big_endian(src@),
{
    let mut count: u64 = 0;
    let mut i: usize = 0;
    assert(src@.take(0) =~= Seq::empty());
    while i < 8
        invariant
            i <= 8,
            src@.len() == 8,
            count == big_endian(src@.take(i as int)),
        decreases 8 - i,
    {
        proof {
            assert(src@.take(i + 1).drop_last() =~= src@.take(i as int));
            lemma_eight_bytes(src@.take(i + 1));
        }
        count = count * 256 + (src[i] as u64);
        i += 1;
    }
    assert(src@.take(8) =~= src@);
    count
}

/// The number that a stored counter stands for: eight bytes, the most
/// significant one first; zero for anything else.
pub fn ivec_to_number(src: &[u8]) -> (number: i64)
    ensures
        number == stored_number(src@),
{
    if src.len() != 8 {
        return 0;
    }
    let count: u64 = read_count(src);
    if count < 0x8000_0000_0000_0000 {
        count as i64
    } else {
        ((count as i128) - 0x1_0000_0000_0000_0000i128) as i64
    }
}

/// The number that a stored counter stands for, without a sign.
pub fn stored_counter(src: &[u8]) -> (count: u64)
    ensures
        count == stored_count(src@),
{
    if src.len() != 8 {
        return 0;
    }
    proof {
        lemma_eight_bytes(src@);
    }
    read_count(src)
}

/// A number as eight bytes, the most significant one first.
pub fn number_bytes(number: u64) -> (bytes: Vec<u8>)
    ensures
        bytes@.len() == 8,
        big_endian(bytes@) == number,
{
    let mut backward: Vec<u8> = Vec::new();
    let mut rest: u64 = number;
    let mut i: usize = 0;
    proof {
        vstd::arithmetic::power::lemma_pow0(256);
        assert(backward@.reverse() =~= Seq::empty());
        assert(rest * 1 == rest);
    }
    while i < 8
        invariant
            i <= 8,
            backward@.len() == i,
            rest * vstd::arithmetic::power::pow(256, i as nat) + big_endian(backward@.reverse())
                == number,
            0 <= rest,
        decreases 8 - i,
    {
        let ghost before = backward@;
        let ghost had = rest as int;
        let low: u8 = (rest % 256) as u8;
        backward.push(low);
        rest = rest / 256;
        proof {
            let p = vstd::arithmetic::power::pow(256, i as nat);
            assert(backward@.reverse() =~= seq![low] + before.reverse());
            lemma_front(low, before.reverse());
            vstd::arithmetic::power::lemma_pow_adds(256, i as nat, 1);
            vstd::arithmetic::power::lemma_pow1(256);
            assert(had == rest * 256 + low);
            assert(had * p == rest * (p * 256) + low * p) by (nonlinear_arith)
                requires
                    had == rest * 256 + low,
            ;
        }
        i += 1;
    }
    proof {
        lemma_pow_eight();
        assert(rest == 0) by {
            if rest >= 1 {
                assert(rest * 0x1_0000_0000_0000_0000 >= 0x1_0000_0000_0000_0000)
                    by (nonlinear_arith)
                    requires
                        rest >= 1,
                ;
            }
        }
    }
    let mut bytes: Vec<u8> = Vec::new();
    let ghost all = backward@;
    while backward.len() > 0
        invariant
            all.len() == 8,
            bytes@.len() + backward@.len() == 8,
            bytes@ + backward@.reverse() =~= all.reverse(),
        decreases backward.len(),
    {
        let ghost left = backward@;
        if let Some(byte) = backward.pop() {
            assert(left.reverse() =~= seq![byte] + backward@.reverse());
            bytes.push(byte);
        }
    }
    assert(bytes@ =~= all.reverse());
    bytes
}

/// A byte in front of others counts by their number.
proof fn lemma_front(first: u8, rest: Seq<u8>)
    ensures
        big_endian(seq![first] + rest) == first * vstd::arithmetic::power::pow(256, rest.len())
            + big_endian(rest),
    decreases rest.len(),
{
    let whole = seq![first] + rest;
    if rest.len() == 0 {
        vstd::arithmetic::power::lemma_pow0(256);
        assert(whole =~= seq![first]);
        assert(whole.drop_last() =~= Seq::empty());
        assert(big_endian(whole.drop_last()) == 0);
    } else {
        lemma_front(first, rest.drop_last());
        assert(whole.drop_last() =~= seq![first] + rest.drop_last());
        let n = (rest.len() - 1) as nat;
        let p = vstd::arithmetic::power::pow(256, n);
        vstd::arithmetic::power::lemma_pow_adds(256, n, 1);
        vstd::arithmetic::power::lemma_pow1(256);
        assert((first * p) * 256 == first * (p * 256)) by (nonlinear_arith);
    }
}

/// What was stored is read back.
pub proof fn law_counter_is_read_back(bytes: Seq<u8>, number: u64)
    requires
        bytes.len() == 8,
        big_endian(bytes) == number,
    ensures
        stored_count(bytes) == number,
        number <= i64::MAX ==> stored_number(bytes) == number,
{
}

/// A stored counter after `delta` was added; zero where nothing was stored.
pub fn increment(old: Option<&[u8]>, delta: i64) -> (bytes: Vec<u8>)
    requires
        old matches Some(old) ==> i64::MIN <= stored_number(old@) + delta <= i64::MAX,
    ensures
        bytes@.len() == 8,
        stored_number(bytes@) == match old {
            Some(old) => stored_number(old@) + delta,
            None => 0,
        },
{
    let number: i64 = match old {
        Some(bytes) => ivec_to_number(bytes) + delta,
        None => 0,
    };
    if number < 0 {
        number_bytes(((number as i128) + 0x1_0000_0000_0000_0000i128) as u64)
    } else {
        number_bytes(number as u64)
    }
}

/// `counter` after `delta` was added, where that is a `u64`.
pub fn bump(counter: u64, delta: i64) -> (next: Option<u64>)
    ensures
        match next {
            Some(next) => next == counter + delta,
            None => !(0 <= counter + delta <= u64::MAX),
        },
{
    let next: i128 = (counter as i128) + (delta as i128);
    if next < 0 || next > u64::MAX as i128 {
        None
    } else {
        Some(next as u64)
    }
}

/// The number that a stored counter stands for; zero where nothing is stored.
pub open spec fn count_in(stored: Option<Vec<u8>>) -> int {
    match stored {
        Some(bytes) => stored_count(bytes@) as int,
        None => 0,
    }
}

} // verus!
