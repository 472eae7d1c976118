//! Values under numeric keys, walked in ascending key order.
use crate::outside::slot_index::{
    self, index_clear, index_contains, index_get, index_insert, index_is_empty, index_iter,
    index_new, index_remove,
};
use crossbeam_skiplist::SkipMap;
use vstd::prelude::*;

verus! {

/// `keys` are the members of `set` in ascending order.
pub open spec fn lists_keys(keys: Seq<u128>, set: Set<u128>) -> bool {
    &&& forall|i: int, j: int| 0 <= i < j < keys.len() ==> keys[i] < keys[j]
    &&& forall|i: int| 0 <= i < keys.len() ==> set.contains(#[trigger] keys[i])
    &&& forall|key: u128| #[trigger] set.contains(key) ==> keys.contains(key)
}

/// A map from numeric keys to values. The index leads from a key to the slot
/// that holds its value; slots of removed keys are used again.
pub struct SlotMap<V> {
    index: SkipMap<u128, u64>,
    slots: Vec<Option<V>>,
    free: Vec<usize>,
}

impl<V> View for SlotMap<V> {
    type V = Map<u128, V>;

    closed spec fn view(&self) -> Map<u128, V> {
        Map::new(
            |key: u128| slot_index::slot_index(self.index).dom().contains(key),
            |key: u128| self.slots@[slot_index::slot_index(self.index)[key] as int]->0,
        )
    }
}

impl<V> SlotMap<V> {
    /// Every key has a slot of its own with a value in it, and a free slot is
    /// empty and listed once.
    pub closed spec fn wf(self) -> bool {
        let index = slot_index::slot_index(self.index);
        &&& forall|key: u128| #[trigger]
            index.dom().contains(key) ==> index[key] < self.slots@.len()
                && self.slots@[index[key] as int] is Some
        &&& forall|a: u128, b: u128|
            #![trigger index[a], index[b]]
            index.dom().contains(a) && index.dom().contains(b) && index[a] == index[b] ==> a == b
        &&& forall|i: int|
            0 <= i < self.free@.len() ==> (#[trigger] self.free@[i]) < self.slots@.len()
                && self.slots@[self.free@[i] as int] is None
        &&& forall|i: int, j: int|
            0 <= i < j < self.free@.len() ==> self.free@[i] != self.free@[j]
    }

    /// An empty map.
    pub fn new() -> (map: Self)
        ensures
            map.wf(),
            map@ == Map::<u128, V>::empty(),
    {
        let map = SlotMap { index: index_new(), slots: Vec::new(), free: Vec::new() };
        assert(map@ =~= Map::<u128, V>::empty());
        map
    }

    /// Puts `value` under `key`, in place of an earlier one.
    pub fn insert(&mut self, key: u128, value: V)
        requires
            old(self).wf(),
        ensures
            final(self).wf(),
            final(self)@ == old(self)@.insert(key, value),
    {
        let ghost before = *self;
        let ghost index = slot_index::slot_index(self.index);
        match index_get(&self.index, key) {
            Some(slot) => {
                assert(index.dom().contains(key));
                assert(slot < self.slots.len());
                self.slots.set(slot as usize, Some(value));
                proof {
                    assert forall|other: u128| #[trigger] index.dom().contains(other) && other
                        != key implies index[other] != slot by {
                        assert(index[key] == slot);
                    }
                    assert(self@ =~= before@.insert(key, value));
                }
            },
            None => {
                match self.free.pop() {
                    Some(slot) => {
                        assert(before.free@[before.free@.len() - 1] == slot);
                        self.slots.set(slot, Some(value));
                        index_insert(&mut self.index, key, slot as u64);
                        proof {
                            assert forall|i: int| 0 <= i < self.free@.len() implies (
                            #[trigger] self.free@[i]) != slot by {
                                assert(self.free@[i] == before.free@[i]);
                                assert(before.free@[i] != before.free@[before.free@.len() - 1]);
                            }
                            assert forall|other: u128| #[trigger]
                                index.dom().contains(other) implies index[other] != slot by {
                                assert(before.slots@[index[other] as int] is Some);
                            }
                        }
                    },
                    None => {
                        let slot: usize = self.slots.len();
                        self.slots.push(Some(value));
                        index_insert(&mut self.index, key, slot as u64);
                        proof {
                            assert forall|other: u128| #[trigger]
                                index.dom().contains(other) implies index[other] != slot by {
                                assert(index[other] < before.slots@.len());
                            }
                        }
                    },
                }
                proof {
                    let now = slot_index::slot_index(self.index);
                    assert forall|a: u128, b: u128|
                        #![trigger now[a], now[b]]
                        now.dom().contains(a) && now.dom().contains(b) && now[a]
                            == now[b] implies a == b by {
                        if a != key && b != key {
                            assert(index[a] == now[a] && index[b] == now[b]);
                            assert(index.dom().contains(a) && index.dom().contains(b));
                        } else if a != key {
                            assert(index.dom().contains(a));
                        } else if b != key {
                            assert(index.dom().contains(b));
                        }
                    }
                    assert forall|other: u128| #[trigger]
                        now.dom().contains(other) implies now[other] < self.slots@.len()
                        && self.slots@[now[other] as int] is Some by {
                        if other != key {
                            assert(index.dom().contains(other));
                        }
                    }
                    assert forall|other: u128| before@.dom().contains(other) implies self@[other]
                        == before@[other] by {
                        assert(index.dom().contains(other));
                    }
                    assert(self@ =~= before@.insert(key, value));
                }
            },
        }
    }

    /// The value under `key`.
    pub fn get(&self, key: u128) -> (value: Option<&V>)
        requires
            self.wf(),
        ensures
            match value {
                Some(value) => self@.dom().contains(key) && *value == self@[key],
                None => !self@.dom().contains(key),
            },
    {
        match index_get(&self.index, key) {
            Some(slot) => {
                assert(slot_index::slot_index(self.index).dom().contains(key));
                assert(slot < self.slots.len());
                self.slots[slot as usize].as_ref()
            },
            None => None,
        }
    }

    /// Takes out the value under `key`.
    pub fn remove(&mut self, key: u128) -> (value: Option<V>)
        requires
            old(self).wf(),
        ensures
            final(self).wf(),
            final(self)@ == old(self)@.remove(key),
            match value {
                Some(value) => old(self)@.dom().contains(key) && value == old(self)@[key],
                None => !old(self)@.dom().contains(key),
            },
    {
        let ghost before = *self;
        let ghost index = slot_index::slot_index(self.index);
        match index_remove(&mut self.index, key) {
            Some(slot) => {
                assert(index.dom().contains(key));
                assert(slot < self.slots.len());
                let mut emptied: Option<V> = None;
                self.slots.set_and_swap(slot as usize, &mut emptied);
                self.free.push(slot as usize);
                proof {
                    let now = slot_index::slot_index(self.index);
                    assert(index[key] == slot);
                    assert forall|other: u128| #[trigger]
                        now.dom().contains(other) implies now[other] < self.slots@.len()
                        && self.slots@[now[other] as int] is Some by {
                        assert(index.dom().contains(other));
                        assert(index[other] != index[key]);
                    }
                    assert forall|a: u128, b: u128|
                        #![trigger now[a], now[b]]
                        now.dom().contains(a) && now.dom().contains(b) && now[a]
                            == now[b] implies a == b by {
                        assert(index[a] == now[a] && index[b] == now[b]);
                        assert(index.dom().contains(a) && index.dom().contains(b));
                    }
                    assert forall|i: int| 0 <= i < before.free@.len() implies before.free@[i]
                        != slot by {
                        assert(before.slots@[before.free@[i] as int] is None);
                    }
                    assert forall|other: u128|
                        other != key && before@.dom().contains(other) implies self@[other]
                        == before@[other] by {
                        assert(index.dom().contains(other));
                        assert(index[other] != index[key]);
                    }
                    assert(self@ =~= before@.remove(key));
                }
                emptied
            },
            None => {
                assert(self@ =~= before@.remove(key));
                None
            },
        }
    }

    /// Whether there is a value under `key`.
    pub fn contains_key(&self, key: u128) -> (found: bool)
        ensures
            found == self@.dom().contains(key),
    {
        index_contains(&self.index, key)
    }

    /// Whether the map is empty.
    pub fn is_empty(&self) -> (empty: bool)
        ensures
            empty == (self@.dom() =~= Set::<u128>::empty()),
    {
        let empty = index_is_empty(&self.index);
        proof {
            assert(self@.dom() =~= slot_index::slot_index(self.index).dom());
        }
        empty
    }

    /// The keys in ascending order.
    pub fn keys(&self) -> (keys: Vec<u128>)
        ensures
            lists_keys(keys@, self@.dom()),
    {
        let entries = index_iter(&self.index);
        let mut keys: Vec<u128> = Vec::new();
        let mut i: usize = 0;
        while i < entries.len()
            invariant
                i <= entries.len(),
                keys@.len() == i,
                forall|j: int| 0 <= j < i ==> #[trigger] keys@[j] == entries@[j].0,
            decreases entries.len() - i,
        {
            keys.push(entries[i].0);
            i += 1;
        }
        proof {
            assert forall|key: u128| #[trigger] self@.dom().contains(key) implies keys@.contains(
                key,
            ) by {
                assert(slot_index::slot_index(self.index).dom().contains(key));
                let j = choose|j: int| 0 <= j < entries@.len() && (#[trigger] entries@[j]).0 == key;
                assert(keys@[j] == key);
            }
        }
        keys
    }

    /// Removes every value.
    pub fn clear(&mut self)
        ensures
            final(self).wf(),
            final(self)@ == Map::<u128, V>::empty(),
    {
        index_clear(&mut self.index);
        self.slots.clear();
        self.free.clear();
        assert(self@ =~= Map::<u128, V>::empty());
    }
}

/// A list of keys has each key of the set once, and no other.
pub proof fn law_keys_are_listed_once(keys: Seq<u128>, set: Set<u128>, key: u128, i: int, j: int)
    requires
        lists_keys(keys, set),
    ensures
        keys.contains(key) <==> set.contains(key),
        0 <= i < keys.len() && 0 <= j < keys.len() && keys[i] == keys[j] ==> i == j,
        0 <= i < j < keys.len() ==> keys[i] < keys[j],
{
    if keys.contains(key) {
        let k = choose|k: int| 0 <= k < keys.len() && keys[k] == key;
        assert(set.contains(keys[k]));
    }
}

} // verus!
