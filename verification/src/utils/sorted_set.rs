//! Job ids under scores, in ascending order.
use crate::outside::scored_ids::{
    self, scored_clear, scored_insert, scored_iter, scored_new, scored_pop_back, scored_pop_front,
    scored_range, scored_remove,
};
use crate::utils::sequences;
use crossbeam_skiplist::SkipSet;
use vstd::prelude::*;

verus! {

/// Job ids under scores: a score holds any number of ids. A score is a signed
/// or an unsigned number of 64 bits.
pub struct SortedSet {
    set: SkipSet<(i128, u64)>,
}

impl View for SortedSet {
    type V = Seq<(i128, u64)>;

    /// `(score, id)` in ascending order: by score, and by id under one score.
    closed spec fn view(&self) -> Seq<(i128, u64)> {
        scored_ids::scored_entries(self.set)
    }
}

/// Holds of the entries that are not in `list`.
spec fn not_in(list: Seq<(i128, u64)>) -> spec_fn((i128, u64)) -> bool {
    |entry: (i128, u64)| !list.contains(entry)
}

/// Holds of the entries whose value is `id`.
spec fn with_value(id: u64) -> spec_fn((i128, u64)) -> bool {
    |entry: (i128, u64)| entry.1 == id
}

/// The scores of filtered entries are among those of the entries.
proof fn lemma_filter_fits(entries: Seq<(i128, u64)>, keep: spec_fn((i128, u64)) -> bool)
    requires
        sequences::scores_fit(entries),
    ensures
        sequences::scores_fit(entries.filter(keep)),
{
    sequences::lemma_filter_elements(entries, keep);
    let kept = entries.filter(keep);
    assert forall|i: int| 0 <= i < kept.len() implies sequences::score_fits(
        (#[trigger] kept[i]).0,
    ) by {
        let k = choose|k: int| 0 <= k < entries.len() && entries[k] == kept[i];
        assert(sequences::score_fits(entries[k].0));
    }
}

/// The unsigned number with the bits of a score.
pub(crate) fn score_bits(score: i128) -> (bits: u64)
    requires
        sequences::score_fits(score),
    ensures
        bits == sequences::score_bits(score),
{
    if score < 0 {
        (score + 0x1_0000_0000_0000_0000) as u64
    } else {
        score as u64
    }
}

impl SortedSet {
    /// The entries are strictly ascending, and every score is a number of 64
    /// bits.
    pub open spec fn wf(self) -> bool {
        &&& scored_ids::ascending(self@)
        &&& sequences::scores_fit(self@)
    }

    /// An empty set.
    pub fn new() -> (set: Self)
        ensures
            set.wf(),
            set@ == Seq::<(i128, u64)>::empty(),
    {
        SortedSet { set: scored_new() }
    }

    /// Puts every entry of `added` among the entries, one after the other.
    pub fn extend(&mut self, added: &Vec<(i128, u64)>)
        requires
            old(self).wf(),
            sequences::scores_fit(added@),
        ensures
            final(self).wf(),
            final(self)@ == sequences::all_scored(old(self)@, added@),
    {
        let ghost before = self@;
        let mut i: usize = 0;
        assert(added@.take(0) =~= Seq::empty());
        while i < added.len()
            invariant
                i <= added.len(),
                sequences::scores_fit(added@),
                self.wf(),
                self@ == sequences::all_scored(before, added@.take(i as int)),
            decreases added.len() - i,
        {
            let (score, id) = added[i];
            proof {
                assert(added@[i as int] == (score, id));
                assert(added@.take(i + 1).drop_last() =~= added@.take(i as int));
                assert(added@.take(i + 1).last() == added@[i as int]);
            }
            self.insert(score, id);
            i += 1;
        }
        assert(added@.take(added@.len() as int) =~= added@);
    }

    /// The entries in ascending order.
    pub fn entries(&self) -> (entries: Vec<(i128, u64)>)
        ensures
            entries@ == self@,
    {
        scored_iter(&self.set)
    }

    /// Puts `id` under `score`, beside the ids that lie there.
    pub fn insert(&mut self, score: i128, id: u64)
        requires
            old(self).wf(),
            sequences::score_fits(score),
        ensures
            final(self).wf(),
            final(self)@ == scored_ids::scored(old(self)@, score, id),
    {
        scored_insert(&mut self.set, score, id);
        proof {
            let before = old(self)@;
            sequences::lemma_scored_entries(before, score, id);
            assert forall|i: int| 0 <= i < self@.len() implies sequences::score_fits(
                (#[trigger] self@[i]).0,
            ) by {
                assert(self@.contains(self@[i]));
                if self@[i] != (score, id) {
                    let k = choose|k: int| 0 <= k < before.len() && before[k] == self@[i];
                    assert(sequences::score_fits(before[k].0));
                }
            }
        }
    }

    /// Takes the entry with the lowest score, or the highest where `min` is
    /// false; under one score, that of the lowest id, or of the highest.
    pub fn pop(&mut self, min: bool) -> (entry: Option<(i128, u64)>)
        requires
            old(self).wf(),
        ensures
            final(self).wf(),
            match entry {
                Some(entry) => old(self)@ == if min {
                    seq![entry] + final(self)@
                } else {
                    final(self)@.push(entry)
                },
                None => old(self)@.len() == 0 && final(self)@ == old(self)@,
            },
            entry matches Some(entry) ==> sequences::score_fits(entry.0),
    {
        let entry = if min {
            scored_pop_front(&mut self.set)
        } else {
            scored_pop_back(&mut self.set)
        };
        proof {
            let before = old(self)@;
            if entry is Some {
                assert(before[if min { 0 } else { before.len() - 1 }] == entry->0);
            }
            let shift: int = if min && entry is Some {
                1
            } else {
                0
            };
            assert forall|i: int| 0 <= i < self@.len() implies #[trigger] self@[i] == before[i
                + shift] by {}
            assert forall|i: int, j: int|
                0 <= i < j < self@.len() implies scored_ids::comes_before(
                #[trigger] self@[i],
                #[trigger] self@[j],
            ) by {
                assert(scored_ids::comes_before(before[i + shift], before[j + shift]));
            }
        }
        entry
    }

    /// Whether `id` lies under some score.
    pub fn contains_id(&self, id: u64) -> (found: bool)
        ensures
            found == sequences::values_of(self@).contains(id),
    {
        let entries = scored_iter(&self.set);
        let mut i: usize = 0;
        while i < entries.len()
            invariant
                i <= entries.len(),
                entries@ == self@,
                forall|j: int| 0 <= j < i ==> sequences::values_of(self@)[j] != id,
            decreases entries.len() - i,
        {
            if entries[i].1 == id {
                assert(sequences::values_of(self@)[i as int] == id);
                return true;
            }
            i += 1;
        }
        false
    }

    /// Removes the entries in `list`.
    fn remove_listed(&mut self, list: &Vec<(i128, u64)>)
        requires
            old(self).wf(),
        ensures
            final(self).wf(),
            final(self)@ == old(self)@.filter(not_in(list@)),
    {
        let ghost before = self@;
        let mut i: usize = 0;
        proof {
            sequences::lemma_filter_all(before, not_in(list@.take(0)));
        }
        while i < list.len()
            invariant
                i <= list.len(),
                scored_ids::ascending(before),
                scored_ids::ascending(self@),
                self@ == before.filter(not_in(list@.take(i as int))),
            decreases list.len() - i,
        {
            let entry = list[i];
            let ghost seen = list@.take(i as int);
            scored_remove(&mut self.set, entry);
            proof {
                let more = list@.take(i + 1);
                assert(more =~= seen.push(entry));
                assert forall|x: (i128, u64)| #[trigger] not_in(more)(x) <==> not_in(seen)(x)
                    && scored_ids::other_entry(entry)(x) by {
                    if seen.contains(x) {
                        let k = choose|k: int| 0 <= k < seen.len() && seen[k] == x;
                        assert(more[k] == x);
                    }
                    if x == entry {
                        assert(more[i as int] == x);
                    }
                    if more.contains(x) && x != entry {
                        let k = choose|k: int| 0 <= k < more.len() && more[k] == x;
                        assert(seen[k] == x);
                    }
                }
                sequences::lemma_filter_twice(
                    before,
                    not_in(seen),
                    scored_ids::other_entry(entry),
                    not_in(more),
                );
                sequences::lemma_filter_in_order(before, not_in(more));
            }
            i += 1;
        }
        proof {
            assert(list@.take(list@.len() as int) =~= list@);
        }
        proof {
            lemma_filter_fits(old(self)@, not_in(list@));
        }
    }

    /// Removes every entry of `id`.
    pub fn remove_id(&mut self, id: u64)
        requires
            old(self).wf(),
        ensures
            final(self).wf(),
            final(self)@ == sequences::without_value(old(self)@, id),
    {
        let ghost before = self@;
        let entries = scored_iter(&self.set);
        let mut found: Vec<(i128, u64)> = Vec::new();
        let mut i: usize = 0;
        proof {
            assert(before.take(0).filter(with_value(id)) =~= Seq::empty()) by {
                reveal(Seq::filter);
            }
        }
        while i < entries.len()
            invariant
                i <= entries.len(),
                entries@ == before,
                found@ == before.take(i as int).filter(with_value(id)),
            decreases entries.len() - i,
        {
            proof {
                sequences::lemma_filter_step(before, i as int, with_value(id));
            }
            let entry = entries[i];
            if entry.1 == id {
                found.push(entry);
            }
            i += 1;
        }
        self.remove_listed(&found);
        proof {
            assert(before.take(before.len() as int) =~= before);
            sequences::lemma_filter_elements(before, with_value(id));
            assert forall|k: int| 0 <= k < before.len() implies not_in(found@)(
                #[trigger] before[k],
            ) == sequences::other_value::<i128>(id)(before[k]) by {
                if before[k].1 == id {
                    assert(before.filter(with_value(id)).contains(before[k]));
                }
            }
            sequences::lemma_filter_same(before, not_in(found@), sequences::other_value(id));
        }
    }

    /// Takes the ids whose score lies in `[low, high]`, in ascending order.
    pub fn take_between(&mut self, low: i128, high: i128) -> (ids: Vec<u64>)
        requires
            old(self).wf(),
        ensures
            final(self).wf(),
            ids@ == sequences::values_of(old(self)@.filter(sequences::between_scores(low, high))),
            final(self)@ == old(self)@.filter(sequences::outside_scores(low, high)),
    {
        let ghost before = self@;
        let found = scored_range(&self.set, (low, 0), (high, u64::MAX));
        proof {
            sequences::lemma_filter_same(
                before,
                scored_ids::from_to((low, 0), (high, u64::MAX)),
                sequences::between_scores(low, high),
            );
        }
        let mut ids: Vec<u64> = Vec::new();
        let mut i: usize = 0;
        while i < found.len()
            invariant
                i <= found.len(),
                ids@ == sequences::values_of(found@.take(i as int)),
            decreases found.len() - i,
        {
            ids.push(found[i].1);
            i += 1;
            assert(ids@ =~= sequences::values_of(found@.take(i as int)));
        }
        self.remove_listed(&found);
        proof {
            let taken = sequences::between_scores(low, high);
            let left = sequences::outside_scores(low, high);
            assert(found@.take(found@.len() as int) =~= found@);
            sequences::lemma_filter_elements(before, taken);
            assert forall|k: int| 0 <= k < before.len() implies not_in(found@)(
                #[trigger] before[k],
            ) == left(before[k]) by {
                if taken(before[k]) {
                    assert(before.filter(taken).contains(before[k]));
                }
            }
            sequences::lemma_filter_same(before, not_in(found@), left);
        }
        ids
    }

    /// The ids from position `start` to position `end`, both included.
    pub fn page(&self, start: usize, end: Option<usize>) -> (ids: Vec<u64>)
        ensures
            ids@ == sequences::page(sequences::values_of(self@), start as int, end),
    {
        let entries = scored_iter(&self.set);
        let ghost values = sequences::values_of(self@);
        let mut ids: Vec<u64> = Vec::new();
        if entries.len() == 0 {
            assert(ids@ =~= sequences::page(values, start as int, end));
            return ids;
        }
        let last: usize = match end {
            Some(end) => end,
            None => entries.len() - 1,
        };
        if start <= last && last < entries.len() {
            let mut i: usize = start;
            while i <= last
                invariant
                    start <= i <= last + 1,
                    last < entries.len(),
                    entries@ == self@,
                    values == sequences::values_of(self@),
                    ids@ == values.subrange(start as int, i as int),
                decreases last + 1 - i,
            {
                ids.push(entries[i].1);
                i += 1;
                assert(ids@ =~= values.subrange(start as int, i as int));
            }
        }
        assert(ids@ =~= sequences::page(values, start as int, end));
        ids
    }

    /// The number of entries, counted one by one.
    pub fn count(&self) -> (count: usize)
        ensures
            count == self@.len(),
    {
        scored_iter(&self.set).len()
    }

    /// Removes every entry.
    pub fn clear(&mut self)
        ensures
            final(self).wf(),
            final(self)@ == Seq::<(i128, u64)>::empty(),
    {
        scored_clear(&mut self.set);
    }
}

} // verus!
