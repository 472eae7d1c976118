//! `crossbeam_skiplist::SkipMap<u64, u64>`, the ordered map that holds every
//! list of the in-memory store.
//!
//! The map is only ever reached through `&mut` or `&` by one owner, so its
//! contents are a function of the value: the sequence of its entries in
//! ascending key order.
use crossbeam_skiplist::SkipMap;
use vstd::prelude::*;

verus! {

/// The outside ordered map.
#[verifier::external_type_specification]
#[verifier::external_body]
#[verifier::reject_recursive_types(K)]
#[verifier::reject_recursive_types(V)]
pub struct ExSkipMap<K, V>(SkipMap<K, V>);

/// The entries of a map from `u64` to `u64`, `(key, value)`, in the order in
/// which the map walks them.
pub uninterp spec fn sorted_entries(map: SkipMap<u64, u64>) -> Seq<(u64, u64)>;

/// The keys of `entries` are strictly ascending.
pub open spec fn ascending(entries: Seq<(u64, u64)>) -> bool {
    forall|i: int, j: int| 0 <= i < j < entries.len() ==> entries[i].0 < entries[j].0
}

/// `rank` entries have a key below `key`, and they are the first ones.
pub open spec fn key_rank(entries: Seq<(u64, u64)>, key: u64, rank: int) -> bool {
    &&& 0 <= rank <= entries.len()
    &&& forall|i: int| 0 <= i < rank ==> entries[i].0 < key
    &&& forall|i: int| rank <= i < entries.len() ==> key <= entries[i].0
}

/// `key` stands at position `rank`.
pub open spec fn key_at(entries: Seq<(u64, u64)>, key: u64, rank: int) -> bool {
    0 <= rank < entries.len() && entries[rank].0 == key
}

/// The entries after `key` was given `value`: an entry with that key is
/// replaced, otherwise one is added at the key's place.
pub open spec fn with_entry(entries: Seq<(u64, u64)>, key: u64, value: u64, rank: int) -> Seq<
    (u64, u64),
> {
    if key_at(entries, key, rank) {
        entries.update(rank, (key, value))
    } else {
        entries.insert(rank, (key, value))
    }
}

/// The entries whose key lies in `[low, high]`.
pub open spec fn entries_between(entries: Seq<(u64, u64)>, low: u64, high: u64) -> Seq<
    (u64, u64),
> {
    entries.filter(|entry: (u64, u64)| low <= entry.0 && entry.0 <= high)
}

/// Calls `SkipMap::new`: the map is empty.
#[verifier::external_body]
pub(crate) fn sorted_new() -> (map: SkipMap<u64, u64>)
    ensures
        sorted_entries(map) == Seq::<(u64, u64)>::empty(),
{
    SkipMap::new()
}

/// Calls `SkipMap::insert`: an entry with this key is removed first, then the
/// new one takes its place in key order; the other entries stay.
#[verifier::external_body]
pub(crate) fn sorted_insert(map: &mut SkipMap<u64, u64>, key: u64, value: u64)
    requires
        ascending(sorted_entries(*old(map))),
    ensures
        ascending(sorted_entries(*final(map))),
        exists|rank: int| #[trigger]
            key_rank(sorted_entries(*old(map)), key, rank) && sorted_entries(*final(map))
                == with_entry(sorted_entries(*old(map)), key, value, rank),
{
    map.insert(key, value);
}

/// Calls `SkipMap::remove`: the entry with this key leaves and its value comes
/// back, or nothing changes.
#[verifier::external_body]
pub(crate) fn sorted_remove(map: &mut SkipMap<u64, u64>, key: u64) -> (value: Option<u64>)
    requires
        ascending(sorted_entries(*old(map))),
    ensures
        match value {
            Some(value) => exists|rank: int|
                0 <= rank < sorted_entries(*old(map)).len() && #[trigger] sorted_entries(
                    *old(map),
                )[rank] == (key, value) && sorted_entries(*final(map)) == sorted_entries(
                    *old(map),
                ).remove(rank),
            None => sorted_entries(*final(map)) == sorted_entries(*old(map)) && forall|i: int|
                0 <= i < sorted_entries(*old(map)).len() ==> (#[trigger] sorted_entries(
                    *old(map),
                )[i]).0 != key,
        },
{
    map.remove(&key).map(|entry| *entry.value())
}

/// Calls `SkipMap::front`: the entry with the smallest key.
#[verifier::external_body]
pub(crate) fn sorted_front(map: &SkipMap<u64, u64>) -> (entry: Option<(u64, u64)>)
    ensures
        entry == if sorted_entries(*map).len() == 0 {
            None
        } else {
            Some(sorted_entries(*map)[0])
        },
{
    map.front().map(|entry| (*entry.key(), *entry.value()))
}

/// Calls `SkipMap::back`: the entry with the largest key.
#[verifier::external_body]
pub(crate) fn sorted_back(map: &SkipMap<u64, u64>) -> (entry: Option<(u64, u64)>)
    ensures
        entry == if sorted_entries(*map).len() == 0 {
            None
        } else {
            Some(sorted_entries(*map)[sorted_entries(*map).len() - 1])
        },
{
    map.back().map(|entry| (*entry.key(), *entry.value()))
}

/// Calls `SkipMap::is_empty`.
#[verifier::external_body]
pub(crate) fn sorted_is_empty(map: &SkipMap<u64, u64>) -> (empty: bool)
    ensures
        empty == (sorted_entries(*map).len() == 0),
{
    map.is_empty()
}

/// Calls `SkipMap::len`: with one owner the count is exact.
#[verifier::external_body]
pub(crate) fn sorted_len(map: &SkipMap<u64, u64>) -> (len: usize)
    ensures
        len == sorted_entries(*map).len(),
{
    map.len()
}

/// Calls `SkipMap::clear`: every entry leaves.
#[verifier::external_body]
pub(crate) fn sorted_clear(map: &mut SkipMap<u64, u64>)
    ensures
        sorted_entries(*final(map)) == Seq::<(u64, u64)>::empty(),
{
    map.clear();
}

/// Calls `SkipMap::iter`: every entry in ascending key order.
#[verifier::external_body]
pub(crate) fn sorted_iter(map: &SkipMap<u64, u64>) -> (entries: Vec<(u64, u64)>)
    ensures
        entries@ == sorted_entries(*map),
{
    map.iter().map(|entry| (*entry.key(), *entry.value())).collect()
}

/// Calls `SkipMap::range` with `low..=high`: the entries between the two keys,
/// both included, in ascending key order; none when `low` is above `high`.
#[verifier::external_body]
pub(crate) fn sorted_range(map: &SkipMap<u64, u64>, low: u64, high: u64) -> (entries: Vec<
    (u64, u64),
>)
    ensures
        entries@ == entries_between(sorted_entries(*map), low, high),
{
    map.range(low..=high).map(|entry| (*entry.key(), *entry.value())).collect()
}

} // verus!
