//! `crossbeam_skiplist::SkipMap<u128, u64>`, the index of a keyed store: a key
//! and the slot that holds its value.
//!
//! One owner reaches the map, so its contents are a function of the value.
use crossbeam_skiplist::SkipMap;
use vstd::prelude::*;

verus! {

/// The keys with their slots.
pub uninterp spec fn slot_index(map: SkipMap<u128, u64>) -> Map<u128, u64>;

/// `entries` are the entries of `index` in ascending key order.
pub open spec fn lists_index(entries: Seq<(u128, u64)>, index: Map<u128, u64>) -> bool {
    &&& forall|i: int, j: int| 0 <= i < j < entries.len() ==> entries[i].0 < entries[j].0
    &&& forall|i: int|
        0 <= i < entries.len() ==> index.dom().contains((#[trigger] entries[i]).0)
            && index[entries[i].0] == entries[i].1
    &&& forall|key: u128| #[trigger]
        index.dom().contains(key) ==> exists|i: int|
            0 <= i < entries.len() && (#[trigger] entries[i]).0 == key
}

/// Calls `SkipMap::new`: the map is empty.
#[verifier::external_body]
pub(crate) fn index_new() -> (map: SkipMap<u128, u64>)
    ensures
        slot_index(map).dom() == Set::<u128>::empty(),
{
    SkipMap::new()
}

/// Calls `SkipMap::insert`: the key leads to the slot, in place of an earlier
/// one.
#[verifier::external_body]
pub(crate) fn index_insert(map: &mut SkipMap<u128, u64>, key: u128, slot: u64)
    ensures
        slot_index(*final(map)) == slot_index(*old(map)).insert(key, slot),
{
    map.insert(key, slot);
}

/// Calls `SkipMap::get`: the slot of the key.
#[verifier::external_body]
pub(crate) fn index_get(map: &SkipMap<u128, u64>, key: u128) -> (slot: Option<u64>)
    ensures
        slot == if slot_index(*map).dom().contains(key) {
            Some(slot_index(*map)[key])
        } else {
            None
        },
{
    map.get(&key).map(|entry| *entry.value())
}

/// Calls `SkipMap::remove`: the key leaves and its slot comes back, or nothing
/// changes.
#[verifier::external_body]
pub(crate) fn index_remove(map: &mut SkipMap<u128, u64>, key: u128) -> (slot: Option<u64>)
    ensures
        slot == if slot_index(*old(map)).dom().contains(key) {
            Some(slot_index(*old(map))[key])
        } else {
            None
        },
        slot_index(*final(map)) == slot_index(*old(map)).remove(key),
{
    map.remove(&key).map(|entry| *entry.value())
}

/// Calls `SkipMap::is_empty`.
#[verifier::external_body]
pub(crate) fn index_is_empty(map: &SkipMap<u128, u64>) -> (empty: bool)
    ensures
        empty == (slot_index(*map).dom() =~= Set::<u128>::empty()),
{
    map.is_empty()
}

/// Calls `SkipMap::contains_key`.
#[verifier::external_body]
pub(crate) fn index_contains(map: &SkipMap<u128, u64>, key: u128) -> (found: bool)
    ensures
        found == slot_index(*map).dom().contains(key),
{
    map.contains_key(&key)
}

/// Calls `SkipMap::clear`: every key leaves.
#[verifier::external_body]
pub(crate) fn index_clear(map: &mut SkipMap<u128, u64>)
    ensures
        slot_index(*final(map)).dom() == Set::<u128>::empty(),
{
    map.clear();
}

/// Calls `SkipMap::iter`: every entry in ascending key order.
#[verifier::external_body]
pub(crate) fn index_iter(map: &SkipMap<u128, u64>) -> (entries: Vec<(u128, u64)>)
    ensures
        lists_index(entries@, slot_index(*map)),
{
    map.iter().map(|entry| (*entry.key(), *entry.value())).collect()
}

} // verus!
