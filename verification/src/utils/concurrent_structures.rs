//! A double-ended list over the ordered map of `crossbeam_skiplist`.
use crate::outside::sorted_map::{
    self, sorted_back, sorted_clear, sorted_front, sorted_insert, sorted_is_empty, sorted_iter,
    sorted_len, sorted_new, sorted_range, sorted_remove,
};
use crate::utils::sequences;
use crossbeam_skiplist::SkipMap;
use vstd::prelude::*;

verus! {

/// Removes every entry whose value is `item`.
fn remove_values(map: &mut SkipMap<u64, u64>, item: u64)
    requires
        sorted_map::ascending(sorted_map::sorted_entries(*old(map))),
    ensures
        sorted_map::ascending(sorted_map::sorted_entries(*final(map))),
        sorted_map::sorted_entries(*final(map)) == sequences::without_value(
            sorted_map::sorted_entries(*old(map)),
            item,
        ),
{
    let ghost before = sorted_map::sorted_entries(*map);
    let ghost keep = sequences::other_value::<u64>(item);
    let entries = sorted_iter(map);
    let mut i: usize = 0;
    proof {
        assert(before.take(0).filter(keep) =~= Seq::empty()) by {
            reveal(Seq::filter);
        }
        assert(before =~= before.take(0).filter(keep) + before.skip(0));
    }
    while i < entries.len()
        invariant
            i <= entries.len(),
            entries@ == before,
            keep == sequences::other_value::<u64>(item),
            sorted_map::ascending(before),
            sorted_map::ascending(sorted_map::sorted_entries(*map)),
            sorted_map::sorted_entries(*map) == before.take(i as int).filter(keep) + before.skip(
                i as int,
            ),
        decreases entries.len() - i,
    {
        let (key, value) = entries[i];
        let ghost now = sorted_map::sorted_entries(*map);
        let ghost kept = before.take(i as int).filter(keep);
        proof {
            sequences::lemma_filter_step(before, i as int, keep);
        }
        if value == item {
            let removed = sorted_remove(map, key);
            proof {
                assert(now[kept.len() as int] == before[i as int]);
                assert(now[kept.len() as int].0 == key);
                let rank = choose|rank: int|
                    0 <= rank < now.len() && now[rank] == (key, removed->0)
                        && sorted_map::sorted_entries(*map) == now.remove(rank);
                assert(rank == kept.len()) by {
                    if rank < kept.len() {
                        assert(now[rank].0 < now[kept.len() as int].0);
                    }
                    if rank > kept.len() {
                        assert(now[kept.len() as int].0 < now[rank].0);
                    }
                }
                assert(sorted_map::sorted_entries(*map) =~= kept + before.skip(i as int + 1));
            }
        } else {
            assert(now =~= kept.push(before[i as int]) + before.skip(i as int + 1));
        }
        i += 1;
    }
    assert(before.take(before.len() as int) =~= before);
    assert(before.skip(before.len() as int) =~= Seq::empty());
    assert(sorted_map::sorted_entries(*map) =~= before.filter(keep));
}

/// The values from position `start` to position `end` in key order.
fn page_of(map: &SkipMap<u64, u64>, start: usize, end: Option<usize>) -> (ids: Vec<u64>)
    requires
        sorted_map::ascending(sorted_map::sorted_entries(*map)),
    ensures
        ids@ == sequences::page(
            sequences::values_of(sorted_map::sorted_entries(*map)),
            start as int,
            end,
        ),
{
    let mut ids: Vec<u64> = Vec::new();
    if sorted_is_empty(map) {
        assert(ids@ =~= Seq::<u64>::empty());
        return ids;
    }
    let last: usize = match end {
        Some(end) => end,
        None => sorted_len(map) - 1,
    };
    let entries = sorted_iter(map);
    if start < entries.len() && last < entries.len() {
        proof {
            sequences::lemma_between_positions(entries@, start as int, last as int);
        }
        let found = sorted_range(map, entries[start].0, entries[last].0);
        let mut i: usize = 0;
        while i < found.len()
            invariant
                i <= found.len(),
                ids@ == sequences::values_of(found@.take(i as int)),
            decreases found.len() - i,
        {
            ids.push(found[i].1);
            i += 1;
            assert(ids@ =~= sequences::values_of(found@.take(i as int)));
        }
        assert(found@.take(found@.len() as int) =~= found@);
        assert(ids@ =~= sequences::page(
            sequences::values_of(sorted_map::sorted_entries(*map)),
            start as int,
            end,
        ));
    }
    assert(ids@ =~= sequences::page(
        sequences::values_of(sorted_map::sorted_entries(*map)),
        start as int,
        end,
    ));
    ids
}

/// The index that the first value pushed to the front is given.
pub const FIRST_FRONT_INDEX: u64 = 0x7fff_ffff_ffff_ffff;

/// The index that the first value pushed to the back is given.
pub const FIRST_BACK_INDEX: u64 = 0x8000_0000_0000_0000;

/// What a [`ConcurrentDeque`] stands for.
#[verifier::ext_equal]
pub struct DequeState {
    /// The values from front to back.
    pub items: Seq<u64>,
    /// How many more values fit before the front before it is cleared.
    pub front_room: nat,
    /// How many more values fit behind the back before it is cleared.
    pub back_room: nat,
}

impl DequeState {
    /// A deque that was just made or cleared.
    pub open spec fn fresh() -> DequeState {
        DequeState {
            items: Seq::empty(),
            front_room: FIRST_FRONT_INDEX as nat,
            back_room: (u64::MAX - FIRST_BACK_INDEX) as nat,
        }
    }

    /// The deque with `value` before its front.
    pub open spec fn pushed_front(self, value: u64) -> DequeState {
        DequeState {
            items: seq![value] + self.items,
            front_room: (self.front_room - 1) as nat,
            ..self
        }
    }

    /// The deque with `value` behind its back.
    pub open spec fn pushed_back(self, value: u64) -> DequeState {
        DequeState {
            items: self.items.push(value),
            back_room: (self.back_room - 1) as nat,
            ..self
        }
    }

    /// The deque with other values and the same room.
    pub open spec fn with_items(self, items: Seq<u64>) -> DequeState {
        DequeState { items, ..self }
    }
}

/// A double-ended list of job ids.
///
/// Every value lies in an ordered map under an index of its own; the front
/// index falls and the back index rises with each push.
pub struct ConcurrentDeque {
    data: SkipMap<u64, u64>,
    head_idx: u64,
    tail_idx: u64,
}

impl View for ConcurrentDeque {
    type V = DequeState;

    closed spec fn view(&self) -> DequeState {
        DequeState {
            items: sequences::values_of(sorted_map::sorted_entries(self.data)),
            front_room: self.head_idx as nat,
            back_room: (u64::MAX - self.tail_idx) as nat,
        }
    }
}

impl ConcurrentDeque {
    /// The indices are ascending and lie strictly between the next front index
    /// and the next back index.
    pub closed spec fn wf(self) -> bool {
        let entries = sorted_map::sorted_entries(self.data);
        &&& sorted_map::ascending(entries)
        &&& self.head_idx < self.tail_idx
        &&& forall|i: int|
            0 <= i < entries.len() ==> self.head_idx < (#[trigger] entries[i]).0 < self.tail_idx
    }

    /// An empty deque.
    pub fn new() -> (deque: Self)
        ensures
            deque.wf(),
            deque@ == DequeState::fresh(),
    {
        let deque = ConcurrentDeque {
            data: sorted_new(),
            head_idx: FIRST_FRONT_INDEX,
            tail_idx: FIRST_BACK_INDEX,
        };
        assert(deque@.items =~= Seq::<u64>::empty());
        deque
    }

    /// Puts `value` before the front.
    pub fn push_front(&mut self, value: u64)
        requires
            old(self).wf(),
            old(self)@.front_room > 0,
        ensures
            final(self).wf(),
            final(self)@ == old(self)@.pushed_front(value),
    {
        let idx: u64 = self.head_idx;
        self.head_idx = self.head_idx - 1;
        let ghost before = sorted_map::sorted_entries(self.data);
        sorted_insert(&mut self.data, idx, value);
        proof {
            let after = sorted_map::sorted_entries(self.data);
            let rank = choose|rank: int|
                sorted_map::key_rank(before, idx, rank) && after
                    == sorted_map::with_entry(before, idx, value, rank);
            if rank > 0 {
                assert(before[0].0 > idx);
            }
            assert(rank == 0);
            assert(after =~= before.insert(0, (idx, value)));
            assert(self@.items =~= seq![value] + old(self)@.items);
        }
    }

    /// Puts `value` behind the back.
    pub fn push_back(&mut self, value: u64)
        requires
            old(self).wf(),
            old(self)@.back_room > 0,
        ensures
            final(self).wf(),
            final(self)@ == old(self)@.pushed_back(value),
    {
        let idx: u64 = self.tail_idx;
        self.tail_idx = self.tail_idx + 1;
        let ghost before = sorted_map::sorted_entries(self.data);
        sorted_insert(&mut self.data, idx, value);
        proof {
            let after = sorted_map::sorted_entries(self.data);
            let rank = choose|rank: int|
                sorted_map::key_rank(before, idx, rank) && after == sorted_map::with_entry(
                    before,
                    idx,
                    value,
                    rank,
                );
            if rank < before.len() {
                assert(before[rank].0 < idx);
            }
            assert(rank == before.len());
            assert(after =~= before.push((idx, value)));
            assert(self@.items =~= old(self)@.items.push(value));
        }
    }

    /// Removes every value and starts the indices anew.
    pub fn clear(&mut self)
        ensures
            final(self).wf(),
            final(self)@ == DequeState::fresh(),
    {
        sorted_clear(&mut self.data);
        self.head_idx = FIRST_FRONT_INDEX;
        self.tail_idx = FIRST_BACK_INDEX;
        assert(self@.items =~= Seq::<u64>::empty());
    }

    /// Takes the value at the front.
    pub fn pop_front(&mut self) -> (value: Option<u64>)
        requires
            old(self).wf(),
        ensures
            final(self).wf(),
            match value {
                Some(value) => old(self)@.items == seq![value] + final(self)@.items,
                None => old(self)@.items.len() == 0,
            },
            final(self)@ == old(self)@.with_items(final(self)@.items),
            value is None ==> final(self)@.items == old(self)@.items,
    {
        let ghost before = sorted_map::sorted_entries(self.data);
        let (key, _) = match sorted_front(&self.data) {
            Some(entry) => entry,
            None => {
                return None;
            },
        };
        let removed = sorted_remove(&mut self.data, key);
        proof {
            let after = sorted_map::sorted_entries(self.data);
            assert(before[0].0 == key);
            let rank = choose|rank: int|
                0 <= rank < before.len() && before[rank] == (key, removed->0) && after
                    == before.remove(rank);
            assert(rank == 0) by {
                if rank > 0 {
                    assert(before[0].0 < before[rank].0);
                }
            }
            assert(old(self)@.items =~= seq![removed->0] + self@.items);
        }
        removed
    }

    /// Takes the value at the back.
    pub fn pop_back(&mut self) -> (value: Option<u64>)
        requires
            old(self).wf(),
        ensures
            final(self).wf(),
            match value {
                Some(value) => old(self)@.items == final(self)@.items.push(value),
                None => old(self)@.items.len() == 0,
            },
            final(self)@ == old(self)@.with_items(final(self)@.items),
            value is None ==> final(self)@.items == old(self)@.items,
    {
        let ghost before = sorted_map::sorted_entries(self.data);
        let (key, _) = match sorted_back(&self.data) {
            Some(entry) => entry,
            None => {
                return None;
            },
        };
        let removed = sorted_remove(&mut self.data, key);
        proof {
            let after = sorted_map::sorted_entries(self.data);
            let last = before.len() - 1;
            assert(before[last].0 == key);
            let rank = choose|rank: int|
                0 <= rank < before.len() && before[rank] == (key, removed->0) && after
                    == before.remove(rank);
            assert(rank == last) by {
                if rank < last {
                    assert(before[rank].0 < before[last].0);
                }
            }
            assert(old(self)@.items =~= self@.items.push(removed->0));
        }
        removed
    }

    /// The number of values, counted one by one.
    pub fn len(&self) -> (len: usize)
        ensures
            len == self@.items.len(),
    {
        sorted_iter(&self.data).len()
    }

    /// Whether there is no value.
    pub fn is_empty(&self) -> (empty: bool)
        ensures
            empty == (self@.items.len() == 0),
    {
        sorted_is_empty(&self.data)
    }

    /// Whether `value` occurs.
    pub fn contains_value(&self, value: u64) -> (found: bool)
        ensures
            found == self@.items.contains(value),
    {
        let entries = sorted_iter(&self.data);
        let mut i: usize = 0;
        while i < entries.len()
            invariant
                i <= entries.len(),
                sequences::values_of(entries@) == self@.items,
                forall|j: int| 0 <= j < i ==> self@.items[j] != value,
            decreases entries.len() - i,
        {
            if entries[i].1 == value {
                assert(self@.items[i as int] == value);
                return true;
            }
            i += 1;
        }
        false
    }

    /// The values under their indices.
    pub closed spec fn entries(self) -> Seq<(u64, u64)> {
        sorted_map::sorted_entries(self.data)
    }

    /// Every value under its index, from front to back.
    pub fn iter(&self) -> (entries: Vec<(u64, u64)>)
        requires
            self.wf(),
        ensures
            entries@ == self.entries(),
            sorted_map::ascending(entries@),
            sequences::values_of(entries@) == self@.items,
    {
        sorted_iter(&self.data)
    }

    /// The values whose index lies in `[low, high]`, from front to back.
    pub fn range(&self, low: u64, high: u64) -> (entries: Vec<(u64, u64)>)
        ensures
            entries@ == sorted_map::entries_between(self.entries(), low, high),
    {
        sorted_range(&self.data, low, high)
    }

    /// Removes every occurrence of `value`.
    pub fn remove_value(&mut self, value: u64)
        requires
            old(self).wf(),
        ensures
            final(self).wf(),
            final(self)@ == old(self)@.with_items(
                sequences::without_id(old(self)@.items, value),
            ),
    {
        let ghost before = sorted_map::sorted_entries(self.data);
        remove_values(&mut self.data, value);
        proof {
            sequences::lemma_values_without(before, value);
            sequences::lemma_filter_elements(before, sequences::other_value(value));
            let after = sorted_map::sorted_entries(self.data);
            assert forall|i: int| 0 <= i < after.len() implies self.head_idx < (
            #[trigger] after[i]).0 < self.tail_idx by {
                let j = choose|j: int| 0 <= j < before.len() && before[j] == after[i];
                assert(before[j].0 == after[i].0);
            }
        }
    }

    /// The values from position `start` to position `end`, both included.
    pub fn page(&self, start: usize, end: Option<usize>) -> (ids: Vec<u64>)
        requires
            self.wf(),
        ensures
            ids@ == sequences::page(self@.items, start as int, end),
    {
        page_of(&self.data, start, end)
    }

    /// How many more values fit before the front.
    pub fn front_room(&self) -> (room: u64)
        ensures
            room == self@.front_room,
    {
        self.head_idx
    }

    /// How many more values fit behind the back.
    pub fn back_room(&self) -> (room: u64)
        ensures
            room == self@.back_room,
    {
        u64::MAX - self.tail_idx
    }
}

/// A list keeps its order: what is put before the front is the first, what is put
/// behind the back is the last, and those that were there stand in their order between.
/// Each takes one place of its side's room, and a new list is empty.
pub proof fn law_list_keeps_its_order(list: DequeState, value: u64, i: int)
    requires
        list.front_room > 0,
        list.back_room > 0,
        0 <= i < list.items.len(),
    ensures
        ({
            let front = list.pushed_front(value);
            let back = list.pushed_back(value);
            &&& front.items.len() == list.items.len() + 1 && front.items[0] == value
                && front.items[i + 1] == list.items[i]
            &&& back.items.len() == list.items.len() + 1 && back.items.last() == value
                && back.items[i] == list.items[i]
            &&& front.front_room == list.front_room - 1 && front.back_room == list.back_room
            &&& back.back_room == list.back_room - 1 && back.front_room == list.front_room
            &&& DequeState::fresh().items.len() == 0
            &&& DequeState::fresh().front_room > 0 && DequeState::fresh().back_room > 0
            &&& list.with_items(front.items).front_room == list.front_room
        }),
{
}

} // verus!
