//! Commands as lists of words.
use crate::outside::pipeline::{self, command_of, pipeline_add, pipeline_commands, pipeline_new};
use vstd::prelude::*;

verus! {

/// The most commands that are sent together.
pub const BATCH_SIZE: usize = 10_000;

/// The command `verb a`.
pub(crate) fn command_with_one(verb: &str, a: &str) -> (command: redis::Cmd)
    ensures
        pipeline::arguments(command) == seq![verb@, a@],
{
    let mut words: Vec<String> = Vec::new();
    words.push(String::from_str(verb));
    words.push(String::from_str(a));
    assert(pipeline::words_of(words@) =~= seq![verb@, a@]);
    command_of(words)
}

/// The command `verb a b`.
pub(crate) fn command_with_two(verb: &str, a: &str, b: &str) -> (command: redis::Cmd)
    ensures
        pipeline::arguments(command) == seq![verb@, a@, b@],
{
    let mut words: Vec<String> = Vec::new();
    words.push(String::from_str(verb));
    words.push(String::from_str(a));
    words.push(String::from_str(b));
    assert(pipeline::words_of(words@) =~= seq![verb@, a@, b@]);
    command_of(words)
}

/// The command `verb a b c`.
pub(crate) fn command_with_three(verb: &str, a: &str, b: &str, c: &str) -> (command: redis::Cmd)
    ensures
        pipeline::arguments(command) == seq![verb@, a@, b@, c@],
{
    let mut words: Vec<String> = Vec::new();
    words.push(String::from_str(verb));
    words.push(String::from_str(a));
    words.push(String::from_str(b));
    words.push(String::from_str(c));
    assert(pipeline::words_of(words@) =~= seq![verb@, a@, b@, c@]);
    command_of(words)
}

/// The words of pairs, one pair after the other.
pub open spec fn pair_words(pairs: Seq<(String, String)>) -> Seq<Seq<char>> {
    Seq::new(
        pairs.len() * 2,
        |i: int|
            if i % 2 == 0 {
                pairs[i / 2].0@
            } else {
                pairs[i / 2].1@
            },
    )
}

/// Adds the words of pairs to `words`.
pub(crate) fn add_pairs(words: &mut Vec<String>, pairs: Vec<(String, String)>)
    ensures
        pipeline::words_of(final(words)@) == pipeline::words_of(old(words)@) + pair_words(pairs@),
{
    let ghost before = words@;
    let mut i: usize = 0;
    assert(pipeline::words_of(words@) =~= pipeline::words_of(before) + pair_words(pairs@.take(0)));
    while i < pairs.len()
        invariant
            i <= pairs.len(),
            pipeline::words_of(words@) == pipeline::words_of(before) + pair_words(
                pairs@.take(i as int),
            ),
        decreases pairs.len() - i,
    {
        let ghost had = words@;
        words.push(pairs[i].0.clone());
        words.push(pairs[i].1.clone());
        i += 1;
        proof {
            let now = pipeline::words_of(words@);
            let then = pipeline::words_of(had);
            assert(now =~= then.push(pairs@[i as int - 1].0@).push(pairs@[i as int - 1].1@));
            assert(pair_words(pairs@.take(i as int)) =~= pair_words(pairs@.take(i as int - 1)).push(
                pairs@[i as int - 1].0@,
            ).push(pairs@[i as int - 1].1@));
            assert(now =~= pipeline::words_of(before) + pair_words(pairs@.take(i as int)));
        }
    }
    assert(pairs@.take(pairs@.len() as int) =~= pairs@);
}

/// The commands of a pipeline from the `k`-th batch of `size` on.
pub open spec fn batch(all: Seq<Seq<Seq<char>>>, size: int, k: int) -> Seq<Seq<Seq<char>>> {
    all.subrange(
        k * size,
        if (k + 1) * size <= all.len() {
            (k + 1) * size
        } else {
            all.len() as int
        },
    )
}

/// How many batches of `size` commands there are, the last one possibly
/// smaller.
pub open spec fn batch_count(len: int, size: int) -> int {
    (len + size - 1) / size
}

/// Splits a pipeline into batches of `chunk_size` commands each, the last one
/// possibly smaller. None of them is a transaction.
pub fn split_pipeline(p: &redis::Pipeline, chunk_size: usize) -> (batches: Vec<redis::Pipeline>)
    requires
        chunk_size > 0,
    ensures
        batches@.len() == batch_count(pipeline::commands(*p).len() as int, chunk_size as int),
        forall|k: int|
            0 <= k < batches@.len() ==> pipeline::commands(#[trigger] batches@[k]) == batch(
                pipeline::commands(*p),
                chunk_size as int,
                k,
            ) && !pipeline::in_transaction(batches@[k]),
{
    let ghost all = pipeline::commands(*p);
    let ghost size = chunk_size as int;
    let mut rest = pipeline_commands(p);
    let mut backward: Vec<redis::Cmd> = Vec::new();
    let total: usize = rest.len();
    while rest.len() > 0
        invariant
            rest@.len() + backward@.len() == total,
            total == all.len(),
            forall|i: int|
                0 <= i < rest@.len() ==> pipeline::arguments(#[trigger] rest@[i]) == all[i],
            forall|i: int|
                0 <= i < backward@.len() ==> pipeline::arguments(#[trigger] backward@[i])
                    == all[total - 1 - i],
        decreases rest.len(),
    {
        if let Some(command) = rest.pop() {
            backward.push(command);
        }
    }
    let mut batches: Vec<redis::Pipeline> = Vec::new();
    proof {
        assert(0 * size == 0);
    }
    while backward.len() > 0
        invariant
            chunk_size > 0,
            size == chunk_size as int,
            total == all.len(),
            backward@.len() <= total,
            backward@.len() > 0 ==> batches@.len() * size == total - backward@.len(),
            total <= batches@.len() * size + backward@.len(),
            batches@.len() > 0 ==> (batches@.len() - 1) * size < total,
            forall|i: int|
                0 <= i < backward@.len() ==> pipeline::arguments(#[trigger] backward@[i])
                    == all[total - 1 - i],
            forall|k: int|
                0 <= k < batches@.len() ==> pipeline::commands(#[trigger] batches@[k]) == batch(
                    all,
                    size,
                    k,
                ) && !pipeline::in_transaction(batches@[k]),
        decreases backward.len(),
    {
        let ghost k = batches@.len() as int;
        let ghost start = total - backward@.len();
        assert(k * size == start);
        let mut next = pipeline_new();
        let mut count: usize = 0;
        while count < chunk_size && backward.len() > 0
            invariant
                size == chunk_size as int,
                count <= chunk_size,
                total == all.len(),
                start == k * size,
                0 <= start,
                start + count + backward@.len() == total,
                !pipeline::in_transaction(next),
                pipeline::commands(next) =~= all.subrange(start, start + count),
                forall|i: int|
                    0 <= i < backward@.len() ==> pipeline::arguments(#[trigger] backward@[i])
                        == all[total - 1 - i],
            decreases backward.len(),
        {
            let ghost last = backward@.len() - 1;
            assert(pipeline::arguments(backward@[last]) == all[total - 1 - last]);
            if let Some(command) = backward.pop() {
                pipeline_add(&mut next, command);
                count += 1;
            }
        }
        proof {
            assert((k + 1) * size == k * size + size) by (nonlinear_arith);
            assert(pipeline::commands(next) == batch(all, size, k));
        }
        batches.push(next);
    }
    proof {
        let n = batches@.len() as int;
        if total == 0 {
            assert(n == 0) by (nonlinear_arith)
                requires
                    n > 0 ==> (n - 1) * size < 0,
                    n >= 0,
                    size > 0,
            ;
            vstd::arithmetic::div_mod::lemma_basic_div(size - 1, size);
        } else {
            assert(batch_count(total as int, size) == n) by {
                let r = total - (n - 1) * size - 1;
                assert(total + size - 1 == n * size + r) by (nonlinear_arith)
                    requires
                        r == total - (n - 1) * size - 1,
                ;
                assert(0 <= r < size) by (nonlinear_arith)
                    requires
                        r == total - (n - 1) * size - 1,
                        (n - 1) * size < total <= n * size,
                ;
                vstd::arithmetic::div_mod::lemma_fundamental_div_mod_converse(
                    total + size - 1,
                    size,
                    n,
                    r,
                );
            }
        }
    }
    batches
}

/// No command is lost, added or moved when a pipeline is split: the `i`-th one
/// is in the batch that counting leads to, at the place that is left over.
pub proof fn law_every_command_is_in_its_batch(all: Seq<Seq<Seq<char>>>, size: int, i: int)
    requires
        size > 0,
        0 <= i < all.len(),
    ensures
        0 <= i / size < batch_count(all.len() as int, size),
        0 <= i % size < batch(all, size, i / size).len() <= size,
        batch(all, size, i / size)[i % size] == all[i],
{
    let k = i / size;
    let n = all.len() as int;
    vstd::arithmetic::div_mod::lemma_fundamental_div_mod(i, size);
    vstd::arithmetic::div_mod::lemma_div_pos_is_pos(i, size);
    assert(k * size + i % size == i) by (nonlinear_arith)
        requires
            i == size * k + i % size,
    ;
    assert((k + 1) * size == k * size + size) by (nonlinear_arith);
    assert(k * size >= 0) by (nonlinear_arith)
        requires
            k >= 0,
            size > 0,
    ;
    assert(k < batch_count(n, size)) by {
        vstd::arithmetic::div_mod::lemma_div_is_ordered(k * size + size, n + size - 1, size);
        assert((k * size + size) / size == k + 1) by {
            vstd::arithmetic::div_mod::lemma_div_multiples_vanish(k + 1, size);
            assert(size * (k + 1) == k * size + size) by (nonlinear_arith);
        }
    }
}

} // verus!
