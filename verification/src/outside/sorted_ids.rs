//! `crossbeam_skiplist::SkipSet<u64>`, the ordered set of the ids of stalled
//! jobs.
//!
//! As with the ordered map, one owner reaches the set, so its contents are a
//! function of the value: its ids in ascending order.
use crossbeam_skiplist::SkipSet;
use vstd::prelude::*;

verus! {

/// The outside ordered set.
#[verifier::external_type_specification]
#[verifier::external_body]
#[verifier::reject_recursive_types(T)]
pub struct ExSkipSet<T>(SkipSet<T>);

/// The ids of a set, in the order in which the set walks them.
pub uninterp spec fn sorted_ids(set: SkipSet<u64>) -> Seq<u64>;

/// `ids` are strictly ascending.
pub open spec fn ascending_ids(ids: Seq<u64>) -> bool {
    forall|i: int, j: int| 0 <= i < j < ids.len() ==> ids[i] < ids[j]
}

/// `rank` ids are below `id`, and they are the first ones.
pub open spec fn id_rank(ids: Seq<u64>, id: u64, rank: int) -> bool {
    &&& 0 <= rank <= ids.len()
    &&& forall|i: int| 0 <= i < rank ==> ids[i] < id
    &&& forall|i: int| rank <= i < ids.len() ==> id <= ids[i]
}

/// Holds of the ids other than `id`.
pub open spec fn other_than(id: u64) -> spec_fn(u64) -> bool {
    |other: u64| other != id
}

/// The ids in `[low, high]`.
pub open spec fn ids_between(ids: Seq<u64>, low: u64, high: u64) -> Seq<u64> {
    ids.filter(|id: u64| low <= id && id <= high)
}

/// Calls `SkipSet::new`: the set is empty.
#[verifier::external_body]
pub(crate) fn ids_new() -> (set: SkipSet<u64>)
    ensures
        sorted_ids(set) == Seq::<u64>::empty(),
{
    SkipSet::new()
}

/// Calls `SkipSet::insert`: an id that was there stays where it is, another
/// takes its place in ascending order; the other ids stay.
#[verifier::external_body]
pub(crate) fn ids_insert(set: &mut SkipSet<u64>, id: u64)
    requires
        ascending_ids(sorted_ids(*old(set))),
    ensures
        sorted_ids(*old(set)).contains(id) ==> sorted_ids(*final(set)) == sorted_ids(*old(set)),
        !sorted_ids(*old(set)).contains(id) ==> exists|rank: int| #[trigger]
            id_rank(sorted_ids(*old(set)), id, rank) && sorted_ids(*final(set)) == sorted_ids(
                *old(set),
            ).insert(rank, id),
{
    set.insert(id);
}

/// Calls `SkipSet::remove`: the id leaves, or nothing changes; the result says
/// which.
#[verifier::external_body]
pub(crate) fn ids_remove(set: &mut SkipSet<u64>, id: u64) -> (removed: bool)
    requires
        ascending_ids(sorted_ids(*old(set))),
    ensures
        removed == sorted_ids(*old(set)).contains(id),
        sorted_ids(*final(set)) == sorted_ids(*old(set)).filter(other_than(id)),
{
    set.remove(&id).is_some()
}

/// Calls `SkipSet::contains`.
#[verifier::external_body]
pub(crate) fn ids_contains(set: &SkipSet<u64>, id: u64) -> (found: bool)
    ensures
        found == sorted_ids(*set).contains(id),
{
    set.contains(&id)
}

/// Calls `SkipSet::is_empty`.
#[verifier::external_body]
pub(crate) fn ids_is_empty(set: &SkipSet<u64>) -> (empty: bool)
    ensures
        empty == (sorted_ids(*set).len() == 0),
{
    set.is_empty()
}

/// Calls `SkipSet::len`: with one owner the count is exact.
#[verifier::external_body]
pub(crate) fn ids_len(set: &SkipSet<u64>) -> (len: usize)
    ensures
        len == sorted_ids(*set).len(),
{
    set.len()
}

/// Calls `SkipSet::clear`: every id leaves.
#[verifier::external_body]
pub(crate) fn ids_clear(set: &mut SkipSet<u64>)
    ensures
        sorted_ids(*final(set)) == Seq::<u64>::empty(),
{
    set.clear();
}

/// Calls `SkipSet::iter`: every id in ascending order.
#[verifier::external_body]
pub(crate) fn ids_iter(set: &SkipSet<u64>) -> (ids: Vec<u64>)
    ensures
        ids@ == sorted_ids(*set),
{
    set.iter().map(|entry| *entry.value()).collect()
}

/// Calls `SkipSet::range` with `low..=high`: the ids between the two, both
/// included, in ascending order; none when `low` is above `high`.
#[verifier::external_body]
pub(crate) fn ids_range(set: &SkipSet<u64>, low: u64, high: u64) -> (ids: Vec<u64>)
    ensures
        ids@ == ids_between(sorted_ids(*set), low, high),
{
    set.range(low..=high).map(|entry| *entry.value()).collect()
}

} // verus!
