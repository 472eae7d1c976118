//! `crossbeam_skiplist::SkipSet<(i128, u64)>`, the ordered set of the ids that
//! lie under scores.
//!
//! As with the ordered map, one owner reaches the set, so its contents are a
//! function of the value: its entries, `(score, id)`, in ascending order. Two
//! pairs of integers are ordered by their first numbers, and by their second
//! ones where the first are equal.
use crossbeam_skiplist::SkipSet;
use vstd::prelude::*;

verus! {

/// The entries of a set, in the order in which the set walks them.
pub uninterp spec fn scored_entries(set: SkipSet<(i128, u64)>) -> Seq<(i128, u64)>;

/// The entry `a` comes before the entry `b`: its score is lower, or the scores
/// are equal and its id is lower.
pub open spec fn comes_before(a: (i128, u64), b: (i128, u64)) -> bool {
    a.0 < b.0 || (a.0 == b.0 && a.1 < b.1)
}

/// `entries` are strictly ascending.
pub open spec fn ascending(entries: Seq<(i128, u64)>) -> bool {
    forall|i: int, j: int|
        0 <= i < j < entries.len() ==> comes_before(#[trigger] entries[i], #[trigger] entries[j])
}

/// Holds of the entries that come before `entry`.
pub open spec fn before_entry(entry: (i128, u64)) -> spec_fn((i128, u64)) -> bool {
    |other: (i128, u64)| comes_before(other, entry)
}

/// Holds of the entries that come after `entry`.
pub open spec fn after_entry(entry: (i128, u64)) -> spec_fn((i128, u64)) -> bool {
    |other: (i128, u64)| comes_before(entry, other)
}

/// Holds of the entries other than `entry`.
pub open spec fn other_entry(entry: (i128, u64)) -> spec_fn((i128, u64)) -> bool {
    |other: (i128, u64)| other != entry
}

/// Holds of the entries from `low` to `high`, both included.
pub open spec fn from_to(low: (i128, u64), high: (i128, u64)) -> spec_fn((i128, u64)) -> bool {
    |entry: (i128, u64)| !comes_before(entry, low) && !comes_before(high, entry)
}

/// The entries with `(score, id)` among them: those before it, itself, and
/// those after it.
pub open spec fn scored(entries: Seq<(i128, u64)>, score: i128, id: u64) -> Seq<(i128, u64)> {
    entries.filter(before_entry((score, id))).push((score, id)) + entries.filter(
        after_entry((score, id)),
    )
}

/// Calls `SkipSet::new`: the set is empty.
#[verifier::external_body]
pub(crate) fn scored_new() -> (set: SkipSet<(i128, u64)>)
    ensures
        scored_entries(set) == Seq::<(i128, u64)>::empty(),
{
    SkipSet::new()
}

/// Calls `SkipSet::insert`: the entry is at its place in ascending order,
/// whether or not it was there; the other entries stay.
#[verifier::external_body]
pub(crate) fn scored_insert(set: &mut SkipSet<(i128, u64)>, score: i128, id: u64)
    requires
        ascending(scored_entries(*old(set))),
    ensures
        scored_entries(*final(set)) == scored(scored_entries(*old(set)), score, id),
{
    set.insert((score, id));
}

/// Calls `SkipSet::remove`: the entry leaves, or nothing changes; the result
/// says which.
#[verifier::external_body]
pub(crate) fn scored_remove(set: &mut SkipSet<(i128, u64)>, entry: (i128, u64)) -> (removed: bool)
    requires
        ascending(scored_entries(*old(set))),
    ensures
        removed == scored_entries(*old(set)).contains(entry),
        scored_entries(*final(set)) == scored_entries(*old(set)).filter(other_entry(entry)),
{
    set.remove(&entry).is_some()
}

/// Calls `SkipSet::pop_front`: the first entry leaves.
#[verifier::external_body]
pub(crate) fn scored_pop_front(set: &mut SkipSet<(i128, u64)>) -> (entry: Option<(i128, u64)>)
    ensures
        match entry {
            Some(entry) => scored_entries(*old(set)) == seq![entry] + scored_entries(*final(set)),
            None => scored_entries(*old(set)).len() == 0 && scored_entries(*final(set)).len() == 0,
        },
{
    set.pop_front().map(|entry| *entry.value())
}

/// Calls `SkipSet::pop_back`: the last entry leaves.
#[verifier::external_body]
pub(crate) fn scored_pop_back(set: &mut SkipSet<(i128, u64)>) -> (entry: Option<(i128, u64)>)
    ensures
        match entry {
            Some(entry) => scored_entries(*old(set)) == scored_entries(*final(set)).push(entry),
            None => scored_entries(*old(set)).len() == 0 && scored_entries(*final(set)).len() == 0,
        },
{
    set.pop_back().map(|entry| *entry.value())
}

/// Calls `SkipSet::clear`: every entry leaves.
#[verifier::external_body]
pub(crate) fn scored_clear(set: &mut SkipSet<(i128, u64)>)
    ensures
        scored_entries(*final(set)) == Seq::<(i128, u64)>::empty(),
{
    set.clear();
}

/// Calls `SkipSet::iter`: every entry in ascending order.
#[verifier::external_body]
pub(crate) fn scored_iter(set: &SkipSet<(i128, u64)>) -> (entries: Vec<(i128, u64)>)
    ensures
        entries@ == scored_entries(*set),
{
    set.iter().map(|entry| *entry.value()).collect()
}

/// Calls `SkipSet::range` with `low..=high`: the entries between the two, both
/// included, in ascending order; none when `low` comes after `high`.
#[verifier::external_body]
pub(crate) fn scored_range(
    set: &SkipSet<(i128, u64)>,
    low: (i128, u64),
    high: (i128, u64),
) -> (entries: Vec<(i128, u64)>)
    ensures
        entries@ == scored_entries(*set).filter(from_to(low, high)),
{
    set.range(low..=high).map(|entry| *entry.value()).collect()
}

} // verus!
