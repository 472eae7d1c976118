//! A set of job ids, walked in ascending order.
use crate::outside::sorted_ids::{
    self, ids_clear, ids_contains, ids_insert, ids_is_empty, ids_iter, ids_len, ids_new,
    ids_range, ids_remove,
};
use crate::utils::sequences;
use crossbeam_skiplist::SkipSet;
use vstd::prelude::*;

verus! {

/// A set of job ids.
pub struct IdSet {
    set: SkipSet<u64>,
}

impl View for IdSet {
    type V = Seq<u64>;

    /// The ids in ascending order.
    closed spec fn view(&self) -> Seq<u64> {
        sorted_ids::sorted_ids(self.set)
    }
}

/// The ids between two positions' ids are those between the positions.
proof fn lemma_ids_between_positions(ids: Seq<u64>, first: int, last: int)
    requires
        sorted_ids::ascending_ids(ids),
        0 <= first < ids.len(),
        0 <= last < ids.len(),
    ensures
        sorted_ids::ids_between(ids, ids[first], ids[last]) == if first <= last {
            ids.subrange(first, last + 1)
        } else {
            Seq::empty()
        },
{
    let keep = |id: u64| ids[first] <= id && id <= ids[last];
    if first <= last {
        let below = ids.take(first);
        let within = ids.subrange(first, last + 1);
        let above = ids.skip(last + 1);
        assert(ids =~= below + within + above);
        Seq::filter_distributes_over_add(below + within, above, keep);
        Seq::filter_distributes_over_add(below, within, keep);
        assert forall|i: int| 0 <= i < below.len() implies !keep(#[trigger] below[i]) by {
            assert(ids[i] < ids[first]);
        }
        assert forall|i: int| 0 <= i < above.len() implies !keep(#[trigger] above[i]) by {
            assert(ids[last] < ids[last + 1 + i]);
        }
        assert forall|i: int| 0 <= i < within.len() implies keep(#[trigger] within[i]) by {
            assert(within[i] == ids[first + i]);
        }
        sequences::lemma_filter_none(below, keep);
        sequences::lemma_filter_none(above, keep);
        sequences::lemma_filter_all(within, keep);
        assert(ids.filter(keep) =~= within);
    } else {
        sequences::lemma_filter_none(ids, keep);
    }
}

/// Filtering keeps ascending ids ascending.
proof fn lemma_filter_ascending_ids(ids: Seq<u64>, keep: spec_fn(u64) -> bool)
    requires
        sorted_ids::ascending_ids(ids),
    ensures
        sorted_ids::ascending_ids(ids.filter(keep)),
    decreases ids.len(),
{
    reveal(Seq::filter);
    if ids.len() > 0 {
        let rest = ids.drop_last();
        lemma_filter_ascending_ids(rest, keep);
        sequences::lemma_filter_elements(rest, keep);
        let kept = rest.filter(keep);
        assert forall|i: int, j: int|
            0 <= i < j < ids.filter(keep).len() implies ids.filter(keep)[i] < ids.filter(
            keep,
        )[j] by {
            if j == kept.len() {
                let x = kept[i];
                assert(rest.contains(x));
                let k = choose|k: int| 0 <= k < rest.len() && rest[k] == x;
                assert(ids[k] < ids[ids.len() - 1]);
            }
        }
    }
}

/// The ids with `id` among them: those below, `id` itself, and those above.
pub open spec fn with_id(ids: Seq<u64>, id: u64) -> Seq<u64> {
    ids.filter(|other: u64| other < id).push(id) + ids.filter(|other: u64| other > id)
}

/// Ascending ids around a position: those before it are below, those from it
/// on are above.
proof fn lemma_split_ids(ids: Seq<u64>, id: u64, rank: int, skipped: int)
    requires
        0 <= rank <= skipped <= ids.len(),
        forall|i: int| 0 <= i < rank ==> ids[i] < id,
        forall|i: int| rank <= i < skipped ==> ids[i] == id,
        forall|i: int| skipped <= i < ids.len() ==> ids[i] > id,
    ensures
        with_id(ids, id) == ids.take(rank).push(id) + ids.skip(skipped),
{
    let lower = |other: u64| other < id;
    let higher = |other: u64| other > id;
    let below = ids.take(rank);
    let here = ids.subrange(rank, skipped);
    let above = ids.skip(skipped);
    assert(ids =~= below + here + above);
    Seq::filter_distributes_over_add(below + here, above, lower);
    Seq::filter_distributes_over_add(below, here, lower);
    Seq::filter_distributes_over_add(below + here, above, higher);
    Seq::filter_distributes_over_add(below, here, higher);
    sequences::lemma_filter_all(below, lower);
    sequences::lemma_filter_none(here, lower);
    sequences::lemma_filter_none(above, lower);
    sequences::lemma_filter_none(below, higher);
    sequences::lemma_filter_none(here, higher);
    sequences::lemma_filter_all(above, higher);
    assert(ids.filter(lower) =~= below);
    assert(ids.filter(higher) =~= above);
}

/// An id that was not there takes its place.
proof fn lemma_with_new_id(ids: Seq<u64>, id: u64, rank: int)
    requires
        sorted_ids::id_rank(ids, id, rank),
        !ids.contains(id),
    ensures
        with_id(ids, id) == ids.insert(rank, id),
{
    assert forall|i: int| rank <= i < ids.len() implies ids[i] > id by {
        assert(ids.contains(ids[i]));
    }
    lemma_split_ids(ids, id, rank, rank);
    assert(ids.insert(rank, id) =~= ids.take(rank).push(id) + ids.skip(rank));
}

/// An id that was there stays.
proof fn lemma_with_old_id(ids: Seq<u64>, id: u64)
    requires
        sorted_ids::ascending_ids(ids),
        ids.contains(id),
    ensures
        with_id(ids, id) == ids,
{
    let rank = choose|rank: int| 0 <= rank < ids.len() && ids[rank] == id;
    assert forall|i: int| 0 <= i < rank implies ids[i] < id by {
        assert(ids[i] < ids[rank]);
    }
    assert forall|i: int| rank + 1 <= i < ids.len() implies ids[i] > id by {
        assert(ids[rank] < ids[i]);
    }
    lemma_split_ids(ids, id, rank, rank + 1);
    lemma_rejoin(ids, rank);
}

/// A sequence cut before and after a position.
proof fn lemma_rejoin(ids: Seq<u64>, rank: int)
    requires
        0 <= rank < ids.len(),
    ensures
        ids.take(rank).push(ids[rank]) + ids.skip(rank + 1) == ids,
{
    assert(ids.take(rank).push(ids[rank]) + ids.skip(rank + 1) =~= ids);
}

/// An id at its place keeps ascending ids ascending.
proof fn lemma_insert_ascending(ids: Seq<u64>, id: u64, rank: int)
    requires
        sorted_ids::ascending_ids(ids),
        sorted_ids::id_rank(ids, id, rank),
        !ids.contains(id),
    ensures
        sorted_ids::ascending_ids(ids.insert(rank, id)),
{
    let now = ids.insert(rank, id);
    assert forall|i: int, j: int| 0 <= i < j < now.len() implies now[i] < now[j] by {
        let i0 = if i < rank { i } else { i - 1 };
        let j0 = if j < rank { j } else { j - 1 };
        if i == rank {
            assert(now[j] == ids[j0]);
            assert(ids[j0] != id);
        } else if j == rank {
            assert(now[i] == ids[i0]);
        } else {
            assert(ids[i0] < ids[j0]);
        }
    }
}

impl IdSet {
    /// The ids are strictly ascending.
    pub open spec fn wf(self) -> bool {
        sorted_ids::ascending_ids(self@)
    }

    /// An empty set.
    pub fn new() -> (set: Self)
        ensures
            set.wf(),
            set@ == Seq::<u64>::empty(),
    {
        IdSet { set: ids_new() }
    }

    /// The set of these ids.
    pub fn from_ids(ids: &Vec<u64>) -> (set: Self)
        requires
            sorted_ids::ascending_ids(ids@),
        ensures
            set.wf(),
            set@ == ids@,
    {
        let mut set = Self::new();
        let mut i: usize = 0;
        while i < ids.len()
            invariant
                i <= ids.len(),
                sorted_ids::ascending_ids(ids@),
                set.wf(),
                set@ == ids@.take(i as int),
            decreases ids.len() - i,
        {
            let id: u64 = ids[i];
            proof {
                let before = ids@.take(i as int);
                assert(sorted_ids::id_rank(before, id, i as int));
                assert(!before.contains(id));
                lemma_with_new_id(before, id, i as int);
                assert(before.insert(i as int, id) =~= ids@.take(i + 1));
            }
            set.insert(id);
            i += 1;
        }
        assert(ids@.take(ids@.len() as int) =~= ids@);
        set
    }

    /// The ids in ascending order.
    pub fn ids(&self) -> (ids: Vec<u64>)
        ensures
            ids@ == self@,
    {
        ids_iter(&self.set)
    }

    /// Adds `id`, unless it is there.
    pub fn insert(&mut self, id: u64)
        requires
            old(self).wf(),
        ensures
            final(self).wf(),
            final(self)@ == with_id(old(self)@, id),
    {
        ids_insert(&mut self.set, id);
        proof {
            let before = old(self)@;
            if !before.contains(id) {
                let rank = choose|rank: int| #[trigger]
                    sorted_ids::id_rank(before, id, rank) && self@ == before.insert(rank, id);
                lemma_insert_ascending(before, id, rank);
                lemma_with_new_id(before, id, rank);
            } else {
                lemma_with_old_id(before, id);
            }
        }
    }

    /// Removes `id`.
    pub fn remove(&mut self, id: u64)
        requires
            old(self).wf(),
        ensures
            final(self).wf(),
            final(self)@ == sequences::without_id(old(self)@, id),
    {
        ids_remove(&mut self.set, id);
        proof {
            lemma_filter_ascending_ids(old(self)@, sorted_ids::other_than(id));
        }
    }

    /// Whether `id` is in the set.
    pub fn contains(&self, id: u64) -> (found: bool)
        ensures
            found == self@.contains(id),
    {
        ids_contains(&self.set, id)
    }

    /// The ids from position `start` to position `end`, both included.
    pub fn page(&self, start: usize, end: Option<usize>) -> (ids: Vec<u64>)
        requires
            self.wf(),
        ensures
            ids@ == sequences::page(self@, start as int, end),
    {
        if ids_is_empty(&self.set) {
            let none: Vec<u64> = Vec::new();
            assert(none@ =~= sequences::page(self@, start as int, end));
            return none;
        }
        let last: usize = match end {
            Some(end) => end,
            None => ids_len(&self.set) - 1,
        };
        let ids = ids_iter(&self.set);
        if start < ids.len() && last < ids.len() {
            proof {
                lemma_ids_between_positions(ids@, start as int, last as int);
            }
            return ids_range(&self.set, ids[start], ids[last]);
        }
        Vec::new()
    }

    /// The number of ids, counted one by one.
    pub fn count(&self) -> (count: usize)
        ensures
            count == self@.len(),
    {
        ids_iter(&self.set).len()
    }

    /// Removes every id.
    pub fn clear(&mut self)
        ensures
            final(self).wf(),
            final(self)@ == Seq::<u64>::empty(),
    {
        ids_clear(&mut self.set);
    }
}

/// A set of ids with an id added holds it and what it held, and nothing else, in
/// ascending order.
pub proof fn law_added_id_is_there(ids: Seq<u64>, id: u64, other: u64)
    requires
        sorted_ids::ascending_ids(ids),
    ensures
        sorted_ids::ascending_ids(with_id(ids, id)),
        with_id(ids, id).contains(other) <==> other == id || ids.contains(other),
{
    let lower = |x: u64| x < id;
    let higher = |x: u64| x > id;
    let below = ids.filter(lower);
    let above = ids.filter(higher);
    let all = with_id(ids, id);
    assert(all =~= below.push(id) + above);
    lemma_filter_ascending_ids(ids, lower);
    lemma_filter_ascending_ids(ids, higher);
    sequences::lemma_filter_elements(ids, lower);
    sequences::lemma_filter_elements(ids, higher);
    assert forall|i: int, j: int| 0 <= i < j < all.len() implies all[i] < all[j] by {
        if i < below.len() {
            assert(all[i] == below[i]);
            assert(lower(below[i]));
        }
        if j < below.len() {
            assert(all[j] == below[j]);
        }
        if j > below.len() {
            assert(all[j] == above[j - below.len() - 1]);
            assert(higher(above[j - below.len() - 1]));
        }
        if i > below.len() {
            assert(all[i] == above[i - below.len() - 1]);
        }
    }
    if all.contains(other) {
        let i = choose|i: int| 0 <= i < all.len() && all[i] == other;
        if i < below.len() {
            assert(below[i] == other);
        } else if i > below.len() {
            assert(above[i - below.len() - 1] == other);
        }
    }
    if other == id {
        assert(all[below.len() as int] == id);
    } else if ids.contains(other) {
        if other < id {
            assert(lower(other));
            assert(below.contains(other));
            let i = choose|i: int| 0 <= i < below.len() && below[i] == other;
            assert(all[i] == other);
        } else {
            assert(higher(other));
            assert(above.contains(other));
            let i = choose|i: int| 0 <= i < above.len() && above[i] == other;
            assert(all[below.len() + 1 + i] == other);
        }
    }
}

} // verus!
