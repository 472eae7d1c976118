//! `crossbeam_skiplist::SkipMap<String, u64>`, the registry of backoff
//! strategies: a strategy's name and the slot where it is kept.
use crossbeam_skiplist::SkipMap;
use vstd::prelude::*;

verus! {

/// The registered names with their slots.
pub uninterp spec fn slots(map: SkipMap<String, u64>) -> Map<Seq<char>, u64>;

/// Calls `SkipMap::new`: nothing is registered.
#[verifier::external_body]
pub(crate) fn registry_new() -> (map: SkipMap<String, u64>)
    ensures
        slots(map).dom() == Set::<Seq<char>>::empty(),
{
    SkipMap::new()
}

/// Calls `SkipMap::insert`: the name is registered with the slot, in place of
/// an earlier one.
#[verifier::external_body]
pub(crate) fn registry_insert(map: &mut SkipMap<String, u64>, name: &str, slot: u64)
    ensures
        slots(*final(map)) == slots(*old(map)).insert(name@, slot),
{
    map.insert(String::from(name), slot);
}

/// Calls `SkipMap::get`: the slot of the name.
#[verifier::external_body]
pub(crate) fn registry_get(map: &SkipMap<String, u64>, name: &str) -> (slot: Option<u64>)
    ensures
        slot == if slots(*map).dom().contains(name@) {
            Some(slots(*map)[name@])
        } else {
            None
        },
{
    map.get(name).map(|entry| *entry.value())
}

/// Calls `SkipMap::contains_key`.
#[verifier::external_body]
pub(crate) fn registry_contains(map: &SkipMap<String, u64>, name: &str) -> (found: bool)
    ensures
        found == slots(*map).dom().contains(name@),
{
    map.contains_key(name)
}

} // verus!
