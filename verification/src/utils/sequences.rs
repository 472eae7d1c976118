//! Facts about filtered and ordered sequences.
use crate::outside::{scored_ids, sorted_ids, sorted_map};
use vstd::prelude::*;

verus! {

/// Filtering one element more.
pub proof fn lemma_filter_step<A>(s: Seq<A>, i: int, keep: spec_fn(A) -> bool)
    requires
        0 <= i < s.len(),
    ensures
        s.take(i + 1).filter(keep) == if keep(s[i]) {
            s.take(i).filter(keep).push(s[i])
        } else {
            s.take(i).filter(keep)
        },
{
    reveal(Seq::filter);
    assert(s.take(i + 1).drop_last() =~= s.take(i));
}

/// A filter that lets everything pass changes nothing.
pub proof fn lemma_filter_all<A>(s: Seq<A>, keep: spec_fn(A) -> bool)
    requires
        forall|i: int| 0 <= i < s.len() ==> keep(#[trigger] s[i]),
    ensures
        s.filter(keep) == s,
    decreases s.len(),
{
    reveal(Seq::filter);
    if s.len() > 0 {
        lemma_filter_all(s.drop_last(), keep);
        assert(s.drop_last().push(s.last()) =~= s);
    }
}

/// A filter that lets nothing pass leaves nothing.
pub proof fn lemma_filter_none<A>(s: Seq<A>, keep: spec_fn(A) -> bool)
    requires
        forall|i: int| 0 <= i < s.len() ==> !keep(#[trigger] s[i]),
    ensures
        s.filter(keep) == Seq::<A>::empty(),
    decreases s.len(),
{
    reveal(Seq::filter);
    if s.len() > 0 {
        lemma_filter_none(s.drop_last(), keep);
    }
}

/// Every element of a filtered sequence passes and stood in the sequence.
pub proof fn lemma_filter_elements<A>(s: Seq<A>, keep: spec_fn(A) -> bool)
    ensures
        forall|i: int|
            0 <= i < s.filter(keep).len() ==> keep(#[trigger] s.filter(keep)[i]) && s.contains(
                s.filter(keep)[i],
            ),
    decreases s.len(),
{
    reveal(Seq::filter);
    if s.len() > 0 {
        lemma_filter_elements(s.drop_last(), keep);
        assert forall|i: int| 0 <= i < s.filter(keep).len() implies keep(
            #[trigger] s.filter(keep)[i],
        ) && s.contains(s.filter(keep)[i]) by {
            let x = s.filter(keep)[i];
            if i < s.drop_last().filter(keep).len() {
                assert(s.drop_last().filter(keep)[i] == x);
                let j = choose|j: int| 0 <= j < s.drop_last().len() && s.drop_last()[j] == x;
                assert(s[j] == x);
            } else {
                assert(s[s.len() - 1] == x);
            }
        }
    }
}

/// The entries between two positions' keys are those between the positions.
pub proof fn lemma_between_positions(s: Seq<(u64, u64)>, first: int, last: int)
    requires
        sorted_map::ascending(s),
        0 <= first < s.len(),
        0 <= last < s.len(),
    ensures
        sorted_map::entries_between(s, s[first].0, s[last].0) == if first <= last {
            s.subrange(first, last + 1)
        } else {
            Seq::empty()
        },
{
    let keep = |entry: (u64, u64)| s[first].0 <= entry.0 && entry.0 <= s[last].0;
    if first <= last {
        let below = s.take(first);
        let within = s.subrange(first, last + 1);
        let above = s.skip(last + 1);
        assert(s =~= below + within + above);
        Seq::filter_distributes_over_add(below + within, above, keep);
        Seq::filter_distributes_over_add(below, within, keep);
        assert forall|i: int| 0 <= i < below.len() implies !keep(#[trigger] below[i]) by {
            assert(s[i].0 < s[first].0);
        }
        assert forall|i: int| 0 <= i < above.len() implies !keep(#[trigger] above[i]) by {
            assert(s[last].0 < s[last + 1 + i].0);
        }
        assert forall|i: int| 0 <= i < within.len() implies keep(#[trigger] within[i]) by {
            assert(within[i] == s[first + i]);
        }
        lemma_filter_none(below, keep);
        lemma_filter_none(above, keep);
        lemma_filter_all(within, keep);
        assert(s.filter(keep) =~= within);
    } else {
        lemma_filter_none(s, keep);
    }
}

/// Filters that agree on the elements leave the same.
pub proof fn lemma_filter_same<A>(s: Seq<A>, one: spec_fn(A) -> bool, other: spec_fn(A) -> bool)
    requires
        forall|i: int| 0 <= i < s.len() ==> one(#[trigger] s[i]) == other(s[i]),
    ensures
        s.filter(one) == s.filter(other),
    decreases s.len(),
{
    reveal(Seq::filter);
    if s.len() > 0 {
        let rest = s.drop_last();
        assert forall|i: int| 0 <= i < rest.len() implies one(#[trigger] rest[i]) == other(
            rest[i],
        ) by {
            assert(rest[i] == s[i]);
        }
        lemma_filter_same(rest, one, other);
        assert(one(s[s.len() - 1]) == other(s[s.len() - 1]));
    }
}

/// Filtering keeps ascending entries ascending.
pub proof fn lemma_filter_in_order(s: Seq<(i128, u64)>, keep: spec_fn((i128, u64)) -> bool)
    requires
        scored_ids::ascending(s),
    ensures
        scored_ids::ascending(s.filter(keep)),
    decreases s.len(),
{
    reveal(Seq::filter);
    if s.len() > 0 {
        let rest = s.drop_last();
        lemma_filter_in_order(rest, keep);
        lemma_filter_elements(rest, keep);
        let all = s.filter(keep);
        assert forall|i: int, j: int| 0 <= i < j < all.len() implies scored_ids::comes_before(
            #[trigger] all[i],
            #[trigger] all[j],
        ) by {
            let kept = rest.filter(keep);
            if j == kept.len() {
                let x = kept[i];
                assert(rest.contains(x));
                let k = choose|k: int| 0 <= k < rest.len() && rest[k] == x;
                assert(scored_ids::comes_before(s[k], s[s.len() - 1]));
            } else {
                assert(scored_ids::comes_before(kept[i], kept[j]));
            }
        }
    }
}

/// After an entry was added the entries are in order; the new one is there, and
/// so are those that were there, and no more.
pub proof fn lemma_scored_entries(entries: Seq<(i128, u64)>, score: i128, id: u64)
    requires
        scored_ids::ascending(entries),
    ensures
        scored_ids::ascending(scored_ids::scored(entries, score, id)),
        scored_ids::scored(entries, score, id).contains((score, id)),
        forall|entry: (i128, u64)|
            #![trigger scored_ids::scored(entries, score, id).contains(entry)]
            scored_ids::scored(entries, score, id).contains(entry) <==> entry == (score, id)
                || entries.contains(entry),
{
    let lower = scored_ids::before_entry((score, id));
    let higher = scored_ids::after_entry((score, id));
    let below = entries.filter(lower);
    let above = entries.filter(higher);
    let all = scored_ids::scored(entries, score, id);
    lemma_filter_in_order(entries, lower);
    lemma_filter_in_order(entries, higher);
    lemma_filter_elements(entries, lower);
    lemma_filter_elements(entries, higher);
    assert(all =~= below.push((score, id)) + above);
    assert forall|i: int, j: int| 0 <= i < j < all.len() implies scored_ids::comes_before(
        #[trigger] all[i],
        #[trigger] all[j],
    ) by {
        if i < below.len() {
            assert(all[i] == below[i]);
            assert(lower(below[i]));
            if j < below.len() {
                assert(all[j] == below[j]);
            }
        }
        if j > below.len() {
            assert(all[j] == above[j - below.len() - 1]);
            assert(higher(above[j - below.len() - 1]));
        }
        if i > below.len() {
            assert(all[i] == above[i - below.len() - 1]);
        }
    }
    assert(all[below.len() as int] == (score, id));
    assert forall|entry: (i128, u64)|
        #![trigger all.contains(entry)]
        all.contains(entry) <==> entry == (score, id) || entries.contains(entry) by {
        if all.contains(entry) {
            let i = choose|i: int| 0 <= i < all.len() && all[i] == entry;
            if i < below.len() {
                assert(below.contains(below[i]));
            } else if i > below.len() {
                assert(above.contains(above[i - below.len() - 1]));
            }
        }
        if entry != (score, id) && entries.contains(entry) {
            if lower(entry) {
                assert(below.contains(entry));
                let i = choose|i: int| 0 <= i < below.len() && below[i] == entry;
                assert(all[i] == entry);
            } else {
                assert(higher(entry));
                assert(above.contains(entry));
                let i = choose|i: int| 0 <= i < above.len() && above[i] == entry;
                assert(all[below.len() + 1 + i] == entry);
            }
        }
    }
}

/// After an entry was added its id is there, and so is every id that was there.
pub proof fn lemma_scored_ids(entries: Seq<(i128, u64)>, score: i128, id: u64)
    requires
        scored_ids::ascending(entries),
    ensures
        values_of(scored_ids::scored(entries, score, id)).contains(id),
        forall|other: u64| #[trigger]
            values_of(entries).contains(other) ==> values_of(
                scored_ids::scored(entries, score, id),
            ).contains(other),
{
    let all = scored_ids::scored(entries, score, id);
    lemma_scored_entries(entries, score, id);
    let at = choose|at: int| 0 <= at < all.len() && all[at] == (score, id);
    assert(values_of(all)[at] == id);
    assert forall|other: u64| #[trigger] values_of(entries).contains(other) implies values_of(
        all,
    ).contains(other) by {
        let i = choose|i: int| 0 <= i < values_of(entries).len() && values_of(entries)[i] == other;
        assert(entries.contains(entries[i]));
        assert(all.contains(entries[i]));
        let j = choose|j: int| 0 <= j < all.len() && all[j] == entries[i];
        assert(values_of(all)[j] == other);
    }
}

/// An entry that comes after all others is added at the end.
pub proof fn lemma_scored_last(entries: Seq<(i128, u64)>, score: i128, id: u64)
    requires
        forall|i: int|
            0 <= i < entries.len() ==> scored_ids::comes_before(#[trigger] entries[i], (score, id)),
    ensures
        scored_ids::scored(entries, score, id) == entries.push((score, id)),
{
    lemma_filter_all(entries, scored_ids::before_entry((score, id)));
    lemma_filter_none(entries, scored_ids::after_entry((score, id)));
    assert(scored_ids::scored(entries, score, id) =~= entries.push((score, id)));
}

/// The entries after others were put among them, one after the other.
pub open spec fn all_scored(entries: Seq<(i128, u64)>, added: Seq<(i128, u64)>) -> Seq<(i128, u64)>
    decreases added.len(),
{
    if added.len() == 0 {
        entries
    } else {
        scored_ids::scored(
            all_scored(entries, added.drop_last()),
            added.last().0,
            added.last().1,
        )
    }
}

/// Entries in order, put together one after the other, are themselves.
pub proof fn lemma_all_scored(entries: Seq<(i128, u64)>)
    requires
        scored_ids::ascending(entries),
    ensures
        all_scored(Seq::empty(), entries) == entries,
    decreases entries.len(),
{
    if entries.len() > 0 {
        let rest = entries.drop_last();
        assert forall|i: int, j: int| 0 <= i < j < rest.len() implies scored_ids::comes_before(
            #[trigger] rest[i],
            #[trigger] rest[j],
        ) by {
            assert(scored_ids::comes_before(entries[i], entries[j]));
        }
        lemma_all_scored(rest);
        assert forall|i: int| 0 <= i < rest.len() implies scored_ids::comes_before(
            #[trigger] rest[i],
            entries.last(),
        ) by {
            assert(scored_ids::comes_before(entries[i], entries[entries.len() - 1]));
        }
        lemma_scored_last(rest, entries.last().0, entries.last().1);
        assert(rest.push(entries.last()) =~= entries);
    } else {
        assert(entries =~= Seq::empty());
    }
}

/// The entry `a` stands before the entry `b`.
pub open spec fn stands_before(entries: Seq<(i128, u64)>, a: (i128, u64), b: (i128, u64)) -> bool {
    exists|i: int, j: int|
        0 <= i < j < entries.len() && #[trigger] entries[i] == a && #[trigger] entries[j] == b
}

/// The lowest score: that of a signed number.
pub const LOWEST_SCORE: i128 = -0x8000_0000_0000_0000;

/// The highest score: that of an unsigned number.
pub const HIGHEST_SCORE: i128 = 0xFFFF_FFFF_FFFF_FFFF;

/// `score` is a signed or an unsigned number of 64 bits.
pub open spec fn score_fits(score: i128) -> bool {
    LOWEST_SCORE <= score <= HIGHEST_SCORE
}

/// The unsigned number with the bits of a score.
pub open spec fn score_bits(score: i128) -> u64 {
    if score < 0 {
        (score + 0x1_0000_0000_0000_0000) as u64
    } else {
        score as u64
    }
}

/// Every score is a signed or an unsigned number of 64 bits.
pub open spec fn scores_fit(entries: Seq<(i128, u64)>) -> bool {
    forall|i: int| 0 <= i < entries.len() ==> score_fits((#[trigger] entries[i]).0)
}

/// Holds of the entries with a score in `[low, high]`.
pub open spec fn between_scores(low: i128, high: i128) -> spec_fn((i128, u64)) -> bool {
    |entry: (i128, u64)| low <= entry.0 && entry.0 <= high
}

/// Holds of the entries with a score outside `[low, high]`.
pub open spec fn outside_scores(low: i128, high: i128) -> spec_fn((i128, u64)) -> bool {
    |entry: (i128, u64)| !(low <= entry.0 && entry.0 <= high)
}

/// Holds of the entries with a score below `start`.
pub open spec fn below_score(start: i128) -> spec_fn((i128, u64)) -> bool {
    |entry: (i128, u64)| entry.0 < start
}

/// Holds of the entries that are neither below `start` nor in `[start, stop]`.
pub open spec fn not_due(start: i128, stop: i128) -> spec_fn((i128, u64)) -> bool {
    |entry: (i128, u64)| entry.0 >= start && !(start <= entry.0 && entry.0 <= stop)
}

/// Filtering twice is filtering by both.
pub proof fn lemma_filter_twice<A>(
    s: Seq<A>,
    first: spec_fn(A) -> bool,
    second: spec_fn(A) -> bool,
    both: spec_fn(A) -> bool,
)
    requires
        forall|x: A| #[trigger] both(x) <==> first(x) && second(x),
    ensures
        s.filter(first).filter(second) == s.filter(both),
    decreases s.len(),
{
    reveal(Seq::filter);
    if s.len() > 0 {
        let rest = s.drop_last();
        lemma_filter_twice(rest, first, second, both);
        assert(both(s.last()) <==> first(s.last()) && second(s.last()));
        if first(s.last()) {
            assert(s.filter(first) == rest.filter(first).push(s.last()));
            assert(rest.filter(first).push(s.last()).drop_last() =~= rest.filter(first));
        }
    }
}

/// Taking the entries in `[start, stop]` and then those below `start` leaves
/// those that are neither.
pub proof fn lemma_due(s: Seq<(i128, u64)>, start: i64, stop: i64)
    requires
        scores_fit(s),
    ensures
        s.filter(outside_scores(start as i128, stop as i128)).filter(
            between_scores(LOWEST_SCORE, (start - 1) as i128),
        ) == s.filter(below_score(start as i128)),
        s.filter(outside_scores(start as i128, stop as i128)).filter(
            outside_scores(LOWEST_SCORE, (start - 1) as i128),
        ) == s.filter(not_due(start as i128, stop as i128)),
{
    let outside = outside_scores(start as i128, stop as i128);
    let within = between_scores(LOWEST_SCORE, (start - 1) as i128);
    let beyond = outside_scores(LOWEST_SCORE, (start - 1) as i128);
    let missed = |entry: (i128, u64)| outside(entry) && within(entry);
    let left = |entry: (i128, u64)| outside(entry) && beyond(entry);
    lemma_filter_twice(s, outside, within, missed);
    lemma_filter_twice(s, outside, beyond, left);
    lemma_filter_same(s, missed, below_score(start as i128));
    lemma_filter_same(s, left, not_due(start as i128, stop as i128));
}

/// The values of `entries`.
pub open spec fn values_of<K>(entries: Seq<(K, u64)>) -> Seq<u64> {
    Seq::new(entries.len(), |i: int| entries[i].1)
}

/// The ids other than `id`.
pub open spec fn without_id(ids: Seq<u64>, id: u64) -> Seq<u64> {
    ids.filter(sorted_ids::other_than(id))
}

/// Holds of the entries whose value is not `id`.
pub open spec fn other_value<K>(id: u64) -> spec_fn((K, u64)) -> bool {
    |entry: (K, u64)| entry.1 != id
}

/// The entries whose value is not `id`.
pub open spec fn without_value<K>(entries: Seq<(K, u64)>, id: u64) -> Seq<(K, u64)> {
    entries.filter(other_value(id))
}

/// Dropping the entries of a value drops the value from the values.
pub proof fn lemma_values_without<K>(entries: Seq<(K, u64)>, item: u64)
    ensures
        values_of(without_value(entries, item)) == without_id(values_of(entries), item),
    decreases entries.len(),
{
    reveal(Seq::filter);
    if entries.len() > 0 {
        lemma_values_without(entries.drop_last(), item);
        assert(values_of(entries).drop_last() =~= values_of(entries.drop_last()));
        assert(values_of(entries).last() == entries.last().1);
    }
    assert(values_of(without_value(entries, item)) =~= without_id(values_of(entries), item));
}

/// The items from position `start` to position `end`, both included and
/// counted from zero; to the last one where `end` is absent. Nothing, where
/// one of the two positions does not exist.
pub open spec fn page(items: Seq<u64>, start: int, end: Option<usize>) -> Seq<u64> {
    let last = match end {
        Some(end) => end as int,
        None => items.len() - 1,
    };
    if 0 <= start <= last < items.len() {
        items.subrange(start, last + 1)
    } else {
        Seq::empty()
    }
}

/// The same bytes once more.
pub(crate) fn copy_of(bytes: &Vec<u8>) -> (copy: Vec<u8>)
    ensures
        copy@ == bytes@,
{
    let mut copy: Vec<u8> = Vec::new();
    let mut i: usize = 0;
    while i < bytes.len()
        invariant
            i <= bytes.len(),
            copy@ == bytes@.take(i as int),
        decreases bytes.len() - i,
    {
        copy.push(bytes[i]);
        i += 1;
        assert(copy@ =~= bytes@.take(i as int));
    }
    assert(bytes@.take(bytes@.len() as int) =~= bytes@);
    copy
}

} // verus!
