//! Stored collections: what their bytes hold and how they change.
use super::numbers::{self, stored_counter};
use crate::error::{KioError, KioResult};
use crate::job::JobState;
use crate::outside::json::{
    self, read_list, read_map, read_rows, read_set, write_list, write_number, write_rows,
};
use crate::outside::scored_ids;
use crate::outside::sorted_ids;
use crate::queue::{CollectionSuffix, QueueMetrics};
use crate::stores::redis_store::operations;
use crate::utils::id_set::{self, IdSet};
use crate::utils::sequences::{self, copy_of};
use crate::utils::sorted_set::{score_bits, SortedSet};
use vstd::prelude::*;

verus! {

/// The ids in a stored list; none where nothing is stored that is a list.
pub open spec fn list_in(stored: Option<Vec<u8>>) -> Seq<u64> {
    match stored {
        Some(bytes) => match json::json_list(bytes@) {
            Some(ids) => ids,
            None => Seq::empty(),
        },
        None => Seq::empty(),
    }
}

/// The ids in a stored set; none where nothing is stored that is a set.
pub open spec fn set_in(stored: Option<Vec<u8>>) -> Seq<u64> {
    match stored {
        Some(bytes) => match json::json_set(bytes@) {
            Some(ids) => ids,
            None => Seq::empty(),
        },
        None => Seq::empty(),
    }
}

/// How an entry of a sorted set is stored: its score where that is below zero,
/// its score where that is not, and its id. The other one of the two is zero.
pub open spec fn row_of(entry: (i128, u64)) -> (i64, u64, u64) {
    if entry.0 < 0 {
        (entry.0 as i64, 0, entry.1)
    } else {
        (0, entry.0 as u64, entry.1)
    }
}

/// The entry of a sorted set that a row stands for.
pub open spec fn entry_of(row: (i64, u64, u64)) -> (i128, u64) {
    if row.0 < 0 {
        (row.0 as i128, row.2)
    } else {
        (row.1 as i128, row.2)
    }
}

/// How the entries of a sorted set are stored.
pub open spec fn rows_of(entries: Seq<(i128, u64)>) -> Seq<(i64, u64, u64)> {
    Seq::new(entries.len(), |i: int| row_of(entries[i]))
}

/// The entries that rows stand for.
pub open spec fn entries_of(rows: Seq<(i64, u64, u64)>) -> Seq<(i128, u64)> {
    Seq::new(rows.len(), |i: int| entry_of(rows[i]))
}

/// The entries of an object from score to id, whose scores are not below zero.
pub open spec fn entries_of_map(pairs: Seq<(u64, u64)>) -> Seq<(i128, u64)> {
    Seq::new(pairs.len(), |i: int| (pairs[i].0 as i128, pairs[i].1))
}

/// The sorted set that `bytes` hold: as rows, or in the older form, an object
/// from score to id.
pub open spec fn entries_read(bytes: Seq<u8>) -> Option<Seq<(i128, u64)>> {
    match json::json_rows(bytes) {
        Some(rows) => Some(sequences::all_scored(Seq::empty(), entries_of(rows))),
        None => match json::json_map(bytes) {
            Some(pairs) => Some(entries_of_map(pairs)),
            None => None,
        },
    }
}

/// The entries of a stored sorted set; none where nothing is stored that is
/// one.
pub open spec fn entries_in(stored: Option<Vec<u8>>) -> Seq<(i128, u64)> {
    match stored {
        Some(bytes) => match entries_read(bytes@) {
            Some(entries) => entries,
            None => Seq::empty(),
        },
        None => Seq::empty(),
    }
}

/// A list is stored.
pub open spec fn is_list_stored(stored: Option<Vec<u8>>) -> bool {
    stored matches Some(bytes) && json::json_list(bytes@) is Some
}

/// A set is stored.
pub open spec fn is_set_stored(stored: Option<Vec<u8>>) -> bool {
    stored matches Some(bytes) && json::json_set(bytes@) is Some
}

/// A sorted set is stored.
pub open spec fn is_scored_stored(stored: Option<Vec<u8>>) -> bool {
    stored matches Some(bytes) && entries_read(bytes@) is Some
}

/// The ids in the stored collection `col`.
pub open spec fn ids_in(col: CollectionSuffix, stored: Option<Vec<u8>>) -> Seq<u64> {
    if operations::is_list(col) {
        list_in(stored)
    } else if operations::is_scored(col) {
        sequences::values_of(entries_in(stored))
    } else if col == CollectionSuffix::Stalled {
        set_in(stored)
    } else {
        Seq::empty()
    }
}

/// `bytes` hold the list `ids`: they are how it is written, and it is read back
/// from them unless they are too long to be read.
pub open spec fn holds_list(bytes: Seq<u8>, ids: Seq<u64>) -> bool {
    &&& bytes == json::list_json(ids)
    &&& bytes.len() <= json::LONGEST_INPUT ==> json::json_list(bytes) == Some(ids)
}

/// `bytes` hold the set `ids`.
pub open spec fn holds_set(bytes: Seq<u8>, ids: Seq<u64>) -> bool {
    &&& bytes == json::list_json(ids)
    &&& bytes.len() <= json::LONGEST_INPUT ==> json::json_set(bytes) == Some(ids)
}

/// `bytes` hold the sorted set `entries`.
pub open spec fn holds_entries(bytes: Seq<u8>, entries: Seq<(i128, u64)>) -> bool {
    &&& bytes == json::rows_json(rows_of(entries))
    &&& bytes.len() <= json::LONGEST_INPUT ==> entries_read(bytes) == Some(entries)
}

/// What becomes of a stored collection.
#[derive(Debug)]
pub enum Change {
    /// These bytes are stored.
    Put(Vec<u8>),
    /// It is deleted.
    Delete,
    /// It stays.
    Keep,
}

/// Reads a list.
fn load_list(stored: Option<Vec<u8>>) -> (ids: Option<Vec<u64>>)
    ensures
        ids is Some <==> is_list_stored(stored),
        ids matches Some(ids) ==> ids@ == list_in(stored),
{
    match stored {
        Some(bytes) => match read_list(bytes) {
            Ok(ids) => Some(ids),
            Err(_) => None,
        },
        None => None,
    }
}

/// Reads a list; an empty one where there is none.
pub(crate) fn load_list_or_empty(stored: Option<Vec<u8>>) -> (ids: Vec<u64>)
    ensures
        ids@ == list_in(stored),
{
    match load_list(stored) {
        Some(ids) => ids,
        None => {
            let none: Vec<u64> = Vec::new();
            assert(none@ =~= list_in(stored));
            none
        },
    }
}

/// Reads a set.
fn load_set(stored: Option<Vec<u8>>) -> (set: Option<IdSet>)
    ensures
        set is Some <==> is_set_stored(stored),
        set matches Some(set) ==> set.wf() && set@ == set_in(stored),
{
    match stored {
        Some(bytes) => match read_set(bytes) {
            Ok(ids) => Some(IdSet::from_ids(&ids)),
            Err(_) => None,
        },
        None => None,
    }
}

/// Reads a sorted set in its older form, an object from score to id.
fn read_score_map(bytes: Vec<u8>) -> (read: Result<SortedSet, String>)
    ensures
        match read {
            Ok(set) => set.wf() && json::json_map(bytes@) is Some && set@ == entries_of_map(
                json::json_map(bytes@)->0,
            ),
            Err(_) => json::json_map(bytes@) is None,
        },
{
    let pairs = match read_map(bytes) {
        Ok(pairs) => pairs,
        Err(message) => return Err(message),
    };
    let mut entries: Vec<(i128, u64)> = Vec::new();
    let mut i: usize = 0;
    while i < pairs.len()
        invariant
            i <= pairs.len(),
            entries@ == entries_of_map(pairs@.take(i as int)),
        decreases pairs.len() - i,
    {
        let (score, id) = pairs[i];
        entries.push((score as i128, id));
        i += 1;
        assert(entries@ =~= entries_of_map(pairs@.take(i as int)));
    }
    proof {
        assert(pairs@.take(pairs@.len() as int) =~= pairs@);
        assert forall|k: int| 0 <= k < entries@.len() implies sequences::score_fits(
            (#[trigger] entries@[k]).0,
        ) by {
            let pair = pairs@[k];
            assert(entries@[k] == (pair.0 as i128, pair.1));
            assert(pair.0 <= u64::MAX);
        }
        assert forall|j: int, k: int|
            0 <= j < k < entries@.len() implies scored_ids::comes_before(
            #[trigger] entries@[j],
            #[trigger] entries@[k],
        ) by {
            assert(pairs@[j].0 < pairs@[k].0);
        }
        sequences::lemma_all_scored(entries@);
    }
    let mut set = SortedSet::new();
    set.extend(&entries);
    Ok(set)
}

/// Reads a sorted set.
fn read_scores(bytes: Vec<u8>) -> (read: Result<SortedSet, String>)
    ensures
        match read {
            Ok(set) => set.wf() && entries_read(bytes@) == Some(set@),
            Err(_) => entries_read(bytes@) is None,
        },
{
    let rows = match read_rows(copy_of(&bytes)) {
        Ok(rows) => rows,
        Err(_) => return read_score_map(bytes),
    };
    let mut entries: Vec<(i128, u64)> = Vec::new();
    let mut i: usize = 0;
    while i < rows.len()
        invariant
            i <= rows.len(),
            entries@ == entries_of(rows@.take(i as int)),
        decreases rows.len() - i,
    {
        let (below, above, id) = rows[i];
        if below < 0 {
            entries.push((below as i128, id));
        } else {
            entries.push((above as i128, id));
        }
        i += 1;
        assert(entries@ =~= entries_of(rows@.take(i as int)));
    }
    assert(rows@.take(rows@.len() as int) =~= rows@);
    assert forall|k: int| 0 <= k < entries@.len() implies sequences::score_fits(
        (#[trigger] entries@[k]).0,
    ) by {
        let row = rows@[k];
        assert(entries@[k] == entry_of(row));
        assert(i64::MIN <= row.0 && row.1 <= u64::MAX);
    }
    let mut set = SortedSet::new();
    set.extend(&entries);
    Ok(set)
}

/// Reads a sorted set, where one is stored.
fn load_scores(stored: Option<Vec<u8>>) -> (set: Option<SortedSet>)
    ensures
        set is Some <==> is_scored_stored(stored),
        set matches Some(set) ==> set.wf() && set@ == entries_in(stored),
{
    match stored {
        Some(bytes) => match read_scores(bytes) {
            Ok(set) => Some(set),
            Err(_) => None,
        },
        None => None,
    }
}

/// Reads a sorted set; an empty one where there is none.
pub(crate) fn load_scores_or_empty(stored: Option<Vec<u8>>) -> (set: SortedSet)
    ensures
        set.wf(),
        set@ == entries_in(stored),
{
    match load_scores(stored) {
        Some(set) => set,
        None => {
            let none = SortedSet::new();
            assert(none@ =~= entries_in(stored));
            none
        },
    }
}

/// Writes a list.
pub(crate) fn store_list(ids: &Vec<u64>) -> (bytes: KioResult<Vec<u8>>)
    ensures
        bytes matches Ok(bytes) && holds_list(bytes@, ids@),
{
    match write_list(ids) {
        Ok(bytes) => Ok(bytes),
        Err(message) => Err(KioError::JsonError(message)),
    }
}

/// Writes a set.
fn store_set(set: &IdSet) -> (bytes: KioResult<Vec<u8>>)
    requires
        set.wf(),
    ensures
        bytes matches Ok(bytes) && holds_set(bytes@, set@),
{
    match write_list(&set.ids()) {
        Ok(bytes) => Ok(bytes),
        Err(message) => Err(KioError::JsonError(message)),
    }
}

/// Writes a sorted set.
pub(crate) fn store_scores(set: &SortedSet) -> (bytes: KioResult<Vec<u8>>)
    requires
        set.wf(),
    ensures
        bytes matches Ok(bytes) && holds_entries(bytes@, set@),
{
    let entries = set.entries();
    let mut rows: Vec<(i64, u64, u64)> = Vec::new();
    let mut i: usize = 0;
    while i < entries.len()
        invariant
            i <= entries.len(),
            sequences::scores_fit(entries@),
            rows@ == rows_of(entries@.take(i as int)),
        decreases entries.len() - i,
    {
        let (score, id) = entries[i];
        assert(sequences::score_fits(entries@[i as int].0));
        if score < 0 {
            rows.push((score as i64, 0, id));
        } else {
            rows.push((0, score as u64, id));
        }
        i += 1;
        assert(rows@ =~= rows_of(entries@.take(i as int)));
    }
    proof {
        assert(entries@.take(entries@.len() as int) =~= entries@);
        lemma_rows_read_back(entries@);
        sequences::lemma_all_scored(entries@);
    }
    match write_rows(&rows) {
        Ok(bytes) => Ok(bytes),
        Err(message) => Err(KioError::JsonError(message)),
    }
}

/// The rows of entries stand for these entries.
proof fn lemma_rows_read_back(entries: Seq<(i128, u64)>)
    requires
        sequences::scores_fit(entries),
    ensures
        entries_of(rows_of(entries)) == entries,
{
    assert forall|i: int| 0 <= i < entries.len() implies #[trigger] entry_of(row_of(entries[i]))
        == entries[i] by {
        assert(sequences::score_fits(entries[i].0));
    }
    assert(entries_of(rows_of(entries)) =~= entries);
}

/// Whether `item` is among `ids`.
fn contains(ids: &Vec<u64>, item: u64) -> (found: bool)
    ensures
        found == ids@.contains(item),
{
    let mut i: usize = 0;
    while i < ids.len()
        invariant
            i <= ids.len(),
            forall|j: int| 0 <= j < i ==> #[trigger] ids@[j] != item,
        decreases ids.len() - i,
    {
        if ids[i] == item {
            assert(ids@[i as int] == item);
            return true;
        }
        i += 1;
    }
    false
}

/// Removes every occurrence of `item`.
fn retain_others(ids: &Vec<u64>, item: u64) -> (left: Vec<u64>)
    ensures
        left@ == sequences::without_id(ids@, item),
{
    let ghost keep = sorted_ids::other_than(item);
    let mut left: Vec<u64> = Vec::new();
    let mut i: usize = 0;
    proof {
        reveal(Seq::filter);
        assert(ids@.take(0) =~= Seq::empty());
    }
    while i < ids.len()
        invariant
            i <= ids.len(),
            keep == sorted_ids::other_than(item),
            left@ == ids@.take(i as int).filter(keep),
        decreases ids.len() - i,
    {
        proof {
            sequences::lemma_filter_step(ids@, i as int, keep);
        }
        if ids[i] != item {
            left.push(ids[i]);
        }
        i += 1;
    }
    assert(ids@.take(ids@.len() as int) =~= ids@);
    left
}

/// The ids from position `start` to position `end`, both included.
fn page(ids: &Vec<u64>, start: usize, end: Option<usize>) -> (page: Vec<u64>)
    ensures
        page@ == sequences::page(ids@, start as int, end),
{
    let mut page: Vec<u64> = Vec::new();
    if ids.len() == 0 {
        assert(page@ =~= sequences::page(ids@, start as int, end));
        return page;
    }
    let last: usize = match end {
        Some(end) => end,
        None => ids.len() - 1,
    };
    if start > last || last >= ids.len() {
        return page;
    }
    let mut i: usize = start;
    while i <= last
        invariant
            start <= i <= last + 1,
            last < ids.len(),
            page@ == ids@.subrange(start as int, i as int),
        decreases last + 1 - i,
    {
        page.push(ids[i]);
        i += 1;
        assert(page@ =~= ids@.subrange(start as int, i as int));
    }
    page
}

/// Every collection of a new queue is there: empty lists and sets, and counters
/// that are read as zero.
pub open spec fn initial(values: Seq<(CollectionSuffix, Vec<u8>)>) -> bool {
    &&& values.len() == 9
    &&& values[0].0 == CollectionSuffix::Wait && holds_list(values[0].1@, Seq::empty())
    &&& values[1].0 == CollectionSuffix::Active && holds_list(values[1].1@, Seq::empty())
    &&& values[2].0 == CollectionSuffix::Stalled && holds_set(values[2].1@, Seq::empty())
    &&& values[3].0 == CollectionSuffix::Completed && holds_entries(values[3].1@, Seq::empty())
    &&& values[4].0 == CollectionSuffix::Prioritized && holds_entries(values[4].1@, Seq::empty())
    &&& values[5].0 == CollectionSuffix::Failed && holds_entries(values[5].1@, Seq::empty())
    &&& values[6].0 == CollectionSuffix::Delayed && holds_entries(values[6].1@, Seq::empty())
    &&& values[7].0 == CollectionSuffix::Id && numbers::stored_count(values[7].1@) == 0
    &&& values[8].0 == CollectionSuffix::PriorityCounter && numbers::stored_count(values[8].1@)
        == 0
}

/// The changes make every collection that of a new queue, and delete the list of
/// paused jobs and the metadata.
pub open spec fn empties(changes: Seq<(CollectionSuffix, Change)>) -> bool {
    exists|values: Seq<(CollectionSuffix, Vec<u8>)>| #[trigger]
        initial(values) && changes =~= Seq::new(
            9,
            |i: int| (values[i].0, Change::Put(values[i].1)),
        ).push((CollectionSuffix::Paused, Change::Delete)).push(
            (CollectionSuffix::Meta, Change::Delete),
        )
}

/// What is stored under the keys of a new queue.
pub fn initial_collections() -> (values: KioResult<Vec<(CollectionSuffix, Vec<u8>)>>)
    ensures
        values matches Ok(values) && initial(values@),
{
    let no_ids: Vec<u64> = Vec::new();
    assert(no_ids@ =~= Seq::empty());
    let mut values: Vec<(CollectionSuffix, Vec<u8>)> = Vec::new();
    values.push((CollectionSuffix::Wait, store_list(&no_ids)?));
    values.push((CollectionSuffix::Active, store_list(&no_ids)?));
    values.push((CollectionSuffix::Stalled, store_set(&IdSet::new())?));
    values.push((CollectionSuffix::Completed, store_scores(&SortedSet::new())?));
    values.push((CollectionSuffix::Prioritized, store_scores(&SortedSet::new())?));
    values.push((CollectionSuffix::Failed, store_scores(&SortedSet::new())?));
    values.push((CollectionSuffix::Delayed, store_scores(&SortedSet::new())?));
    let zero = match write_number(0) {
        Ok(zero) => zero,
        Err(message) => return Err(KioError::JsonError(message)),
    };
    values.push((CollectionSuffix::Id, zero));
    let zero = match write_number(0) {
        Ok(zero) => zero,
        Err(message) => return Err(KioError::JsonError(message)),
    };
    values.push((CollectionSuffix::PriorityCounter, zero));
    Ok(values)
}

/// Whether `item` is in the stored collection `col`.
pub fn exists_in(col: CollectionSuffix, stored: Option<Vec<u8>>, item: u64) -> (found: bool)
    ensures
        found == ids_in(col, stored).contains(item),
{
    match col {
        CollectionSuffix::Active | CollectionSuffix::Wait | CollectionSuffix::Paused => contains(
            &load_list_or_empty(stored),
            item,
        ),
        CollectionSuffix::Completed
        | CollectionSuffix::Delayed
        | CollectionSuffix::Failed
        | CollectionSuffix::Prioritized => load_scores_or_empty(stored).contains_id(item),
        CollectionSuffix::Stalled => match load_set(stored) {
            Some(set) => set.contains(item),
            None => false,
        },
        _ => false,
    }
}

/// Whether `item` is in the stored list `col`; nothing where `col` is no list,
/// or none is stored.
pub fn item_exists_in_list(col: CollectionSuffix, stored: Option<Vec<u8>>, item: u64) -> (found:
    Option<bool>)
    ensures
        found == if operations::is_list(col) && is_list_stored(stored) {
            Some(list_in(stored).contains(item))
        } else {
            None
        },
{
    match col {
        CollectionSuffix::Active | CollectionSuffix::Wait | CollectionSuffix::Paused => {
            match load_list(stored) {
                Some(queue) => Some(contains(&queue, item)),
                None => None,
            }
        },
        _ => None,
    }
}

/// Adds `item` to the stored collection `col`: to the tail of a list, or to
/// its front where `append` is not set; under its score to a sorted set, where
/// it has one, beside the ids that lie there; to a set. Anything else stays.
pub fn add_item(
    col: CollectionSuffix,
    stored: Option<Vec<u8>>,
    item: u64,
    score: Option<i64>,
    append: bool,
) -> (change: KioResult<Change>)
    ensures
        if operations::is_list(col) {
            change matches Ok(Change::Put(bytes)) && holds_list(
                bytes@,
                if append {
                    list_in(stored).push(item)
                } else {
                    seq![item] + list_in(stored)
                },
            )
        } else if operations::is_scored(col) {
            change matches Ok(Change::Put(bytes)) && holds_entries(
                bytes@,
                match score {
                    Some(score) => scored_ids::scored(
                        entries_in(stored),
                        score as i128,
                        item,
                    ),
                    None => entries_in(stored),
                },
            )
        } else if col == CollectionSuffix::Stalled {
            change matches Ok(Change::Put(bytes)) && holds_set(
                bytes@,
                id_set::with_id(set_in(stored), item),
            )
        } else {
            change matches Ok(Change::Keep)
        },
{
    match col {
        CollectionSuffix::Active | CollectionSuffix::Wait | CollectionSuffix::Paused => {
            let mut queue = load_list_or_empty(stored);
            let ghost before = queue@;
            if append {
                queue.push(item);
            } else {
                queue.insert(0, item);
                assert(queue@ =~= seq![item] + before);
            }
            Ok(Change::Put(store_list(&queue)?))
        },
        CollectionSuffix::Completed
        | CollectionSuffix::Delayed
        | CollectionSuffix::Failed
        | CollectionSuffix::Prioritized => {
            let mut map = load_scores_or_empty(stored);
            if let Some(score) = score {
                map.insert(score as i128, item);
            }
            Ok(Change::Put(store_scores(&map)?))
        },
        CollectionSuffix::Stalled => {
            let mut set = match load_set(stored) {
                Some(set) => set,
                None => {
                    let none = IdSet::new();
                    assert(none@ =~= set_in(stored));
                    none
                },
            };
            set.insert(item);
            Ok(Change::Put(store_set(&set)?))
        },
        _ => Ok(Change::Keep),
    }
}

/// Removes every occurrence of `item` from the stored collection `col`. What
/// holds no items is deleted.
pub fn remove_item(col: CollectionSuffix, stored: Option<Vec<u8>>, item: u64) -> (change: KioResult<
    Change,
>)
    ensures
        if operations::is_list(col) {
            if is_list_stored(stored) {
                change matches Ok(Change::Put(bytes)) && holds_list(
                    bytes@,
                    sequences::without_id(list_in(stored), item),
                )
            } else {
                change matches Ok(Change::Keep)
            }
        } else if operations::is_scored(col) {
            if is_scored_stored(stored) {
                change matches Ok(Change::Put(bytes)) && holds_entries(
                    bytes@,
                    sequences::without_value(entries_in(stored), item),
                )
            } else {
                change matches Ok(Change::Keep)
            }
        } else if col == CollectionSuffix::Stalled {
            if is_set_stored(stored) {
                change matches Ok(Change::Put(bytes)) && holds_set(
                    bytes@,
                    sequences::without_id(set_in(stored), item),
                )
            } else {
                change matches Ok(Change::Keep)
            }
        } else {
            change matches Ok(Change::Delete)
        },
{
    match col {
        CollectionSuffix::Active | CollectionSuffix::Wait | CollectionSuffix::Paused => {
            match load_list(stored) {
                Some(queue) => {
                    let left = retain_others(&queue, item);
                    Ok(Change::Put(store_list(&left)?))
                },
                None => Ok(Change::Keep),
            }
        },
        CollectionSuffix::Completed
        | CollectionSuffix::Delayed
        | CollectionSuffix::Failed
        | CollectionSuffix::Prioritized => match load_scores(stored) {
            Some(map) => {
                let mut map = map;
                map.remove_id(item);
                Ok(Change::Put(store_scores(&map)?))
            },
            None => Ok(Change::Keep),
        },
        CollectionSuffix::Stalled => match load_set(stored) {
            Some(set) => {
                let mut set = set;
                set.remove(item);
                Ok(Change::Put(store_set(&set)?))
            },
            None => Ok(Change::Keep),
        },
        _ => Ok(Change::Delete),
    }
}

/// Takes the entry with the lowest score, or the highest where `min` is not
/// set, out of a stored sorted set: `(id, score)`, and what is then stored.
/// The score of an entry below zero comes as the unsigned number with its bits.
/// Nothing where there is no entry.
pub fn pop_set(col: CollectionSuffix, stored: Option<Vec<u8>>, min: bool) -> (popped: KioResult<
    Option<((u64, u64), Vec<u8>)>,
>)
    ensures
        if operations::is_scored(col) && entries_in(stored).len() > 0 {
            let entries = entries_in(stored);
            popped matches Ok(Some((entry, bytes))) && if min {
                entry == (entries[0].1, sequences::score_bits(entries[0].0)) && holds_entries(
                    bytes@,
                    entries.skip(1),
                )
            } else {
                entry == (entries.last().1, sequences::score_bits(entries.last().0))
                    && holds_entries(
                    bytes@,
                    entries.drop_last(),
                )
            }
        } else {
            popped matches Ok(None)
        },
{
    match col {
        CollectionSuffix::Completed
        | CollectionSuffix::Delayed
        | CollectionSuffix::Failed
        | CollectionSuffix::Prioritized => {},
        _ => return Ok(None),
    }
    let mut map = load_scores_or_empty(stored);
    let ghost entries = map@;
    match map.pop(min) {
        Some((score, id)) => {
            proof {
                if min {
                    assert(map@ =~= entries.skip(1));
                } else {
                    assert(map@ =~= entries.drop_last());
                }
            }
            Ok(Some(((id, score_bits(score)), store_scores(&map)?)))
        },
        None => Ok(None),
    }
}

/// Takes the delayed jobs due from `start` to `stop`, both included, and those
/// that missed their time, out of the stored sorted set; and what is then
/// stored. Nothing is stored where no sorted set was.
pub fn get_delayed_at(stored: Option<Vec<u8>>, start: i64, stop: i64) -> (due: KioResult<
    (Vec<u64>, Vec<u64>, Option<Vec<u8>>),
>)
    ensures
        due matches Ok((jobs, missed, bytes)) && {
            &&& jobs@ == sequences::values_of(
                entries_in(stored).filter(
                    sequences::between_scores(start as i128, stop as i128),
                ),
            )
            &&& missed@ == sequences::values_of(
                entries_in(stored).filter(sequences::below_score(start as i128)),
            )
            &&& match bytes {
                Some(bytes) => is_scored_stored(stored) && holds_entries(
                    bytes@,
                    entries_in(stored).filter(sequences::not_due(start as i128, stop as i128)),
                ),
                None => !is_scored_stored(stored),
            }
        },
{
    let begin: i128 = start as i128;
    let ghost before = entries_in(stored);
    let mut delayed = match load_scores(stored) {
        Some(delayed) => delayed,
        None => {
            let jobs: Vec<u64> = Vec::new();
            let missed: Vec<u64> = Vec::new();
            proof {
                reveal(Seq::filter);
                assert(jobs@ =~= sequences::values_of(
                    before.filter(sequences::between_scores(begin, stop as i128)),
                ));
                assert(missed@ =~= sequences::values_of(
                    before.filter(sequences::below_score(begin)),
                ));
            }
            return Ok((jobs, missed, None));
        },
    };
    proof {
        sequences::lemma_due(before, start, stop);
    }
    let jobs = delayed.take_between(begin, stop as i128);
    let missed = delayed.take_between(sequences::LOWEST_SCORE, begin - 1);
    Ok((jobs, missed, Some(store_scores(&delayed)?)))
}

/// Whether the collection is a list.
fn is_list(col: CollectionSuffix) -> (list: bool)
    ensures
        list == operations::is_list(col),
{
    match col {
        CollectionSuffix::Wait | CollectionSuffix::Active | CollectionSuffix::Paused => true,
        _ => false,
    }
}

/// Moves the last id of the stored list `src` to the front of the stored list
/// `dst`: the id, and what is then stored in both. Nothing where there is no
/// id, or one of the two is no list.
pub fn pop_back_push_front(
    src: CollectionSuffix,
    dst: CollectionSuffix,
    stored_src: Option<Vec<u8>>,
    stored_dst: Option<Vec<u8>>,
) -> (moved: Option<(u64, Vec<u8>, Vec<u8>)>)
    ensures
        if operations::is_list(src) && operations::is_list(dst) && list_in(stored_src).len() > 0 {
            let from = list_in(stored_src);
            let to = if src == dst {
                from.drop_last()
            } else {
                list_in(stored_dst)
            };
            moved matches Some((id, src_bytes, dst_bytes)) && id == from.last() && holds_list(
                src_bytes@,
                if src == dst {
                    seq![id] + to
                } else {
                    from.drop_last()
                },
            ) && holds_list(dst_bytes@, seq![id] + to)
        } else {
            moved is None
        },
{
    if !is_list(src) || !is_list(dst) {
        return None;
    }
    let mut from = load_list_or_empty(stored_src);
    let ghost before = from@;
    let id: u64 = match from.pop() {
        Some(id) => id,
        None => return None,
    };
    assert(from@ =~= before.drop_last());
    if src == dst {
        from.insert(0, id);
        assert(from@ =~= seq![id] + before.drop_last());
        return match (store_list(&from), store_list(&from)) {
            (Ok(src_bytes), Ok(dst_bytes)) => Some((id, src_bytes, dst_bytes)),
            _ => None,
        };
    }
    let mut to = load_list_or_empty(stored_dst);
    let ghost target = to@;
    to.insert(0, id);
    assert(to@ =~= seq![id] + target);
    match (store_list(&from), store_list(&to)) {
        (Ok(src_bytes), Ok(dst_bytes)) => Some((id, src_bytes, dst_bytes)),
        _ => None,
    }
}

/// The ids of the jobs in a state, in the collection they are stored in.
pub open spec fn ids_in_state(state: JobState, stored: Option<Vec<u8>>) -> Seq<u64> {
    match state {
        JobState::Prioritized
        | JobState::Completed
        | JobState::Failed
        | JobState::Delayed => sequences::values_of(entries_in(stored)),
        JobState::Stalled => set_in(stored),
        JobState::Active | JobState::Wait | JobState::Paused => list_in(stored),
        _ => Seq::empty(),
    }
}

/// The collection that the ids of the jobs in `state` are stored in.
pub fn collection_of(state: JobState) -> (col: CollectionSuffix)
    ensures
        col == if state == JobState::Stalled {
            CollectionSuffix::Stalled
        } else {
            CollectionSuffix::of_state(state)
        },
{
    match state {
        JobState::Stalled => CollectionSuffix::Stalled,
        state => CollectionSuffix::from(state),
    }
}

/// The ids of the jobs in `state` from position `start` to position `end`, both
/// included; `stored` is the collection they are stored in.
pub fn get_job_ids_in_state(
    state: JobState,
    stored: Option<Vec<u8>>,
    start: Option<usize>,
    end: Option<usize>,
) -> (ids: Vec<u64>)
    ensures
        ids@ == sequences::page(
            ids_in_state(state, stored),
            match start {
                Some(start) => start as int,
                None => 0,
            },
            end,
        ),
{
    let start: usize = match start {
        Some(start) => start,
        None => 0,
    };
    match state {
        JobState::Prioritized | JobState::Completed | JobState::Failed | JobState::Delayed => {
            load_scores_or_empty(stored).page(start, end)
        },
        JobState::Stalled => match load_set(stored) {
            Some(set) => set.page(start, end),
            None => {
                let none: Vec<u64> = Vec::new();
                assert(none@ =~= sequences::page(set_in(stored), start as int, end));
                none
            },
        },
        JobState::Active | JobState::Wait | JobState::Paused => page(
            &load_list_or_empty(stored),
            start,
            end,
        ),
        _ => {
            let none: Vec<u64> = Vec::new();
            assert(none@ =~= sequences::page(Seq::<u64>::empty(), start as int, end));
            none
        },
    }
}

/// Queue metadata.
#[derive(Debug, Clone, Copy, PartialEq, Eq, Structural)]
pub struct Meta {
    /// How many jobs are being processed.
    pub processing: u64,
    /// Whether the queue is paused.
    pub paused: bool,
}

impl Default for Meta {
    /// Nothing is processed, and the queue is not paused.
    fn default() -> (meta: Self)
        ensures
            meta == (Meta { processing: 0, paused: false }),
    {
        Meta { processing: 0, paused: false }
    }
}

/// What is stored of a queue.
#[derive(Debug)]
pub struct StoredQueue {
    /// The id counter.
    pub id: Option<Vec<u8>>,
    /// Stalled jobs.
    pub stalled: Option<Vec<u8>>,
    /// Active jobs.
    pub active: Option<Vec<u8>>,
    /// Completed jobs.
    pub completed: Option<Vec<u8>>,
    /// Delayed jobs.
    pub delayed: Option<Vec<u8>>,
    /// Waiting jobs.
    pub waiting: Option<Vec<u8>>,
    /// Metadata.
    pub meta: Option<Meta>,
    /// Jobs with a priority.
    pub prioritized: Option<Vec<u8>>,
    /// Paused jobs.
    pub paused: Option<Vec<u8>>,
    /// Failed jobs.
    pub failed: Option<Vec<u8>>,
}

impl StoredQueue {
    /// What is stored can be read.
    pub open spec fn readable(self) -> bool {
        &&& self.stalled is Some ==> is_set_stored(self.stalled)
        &&& self.active is Some ==> is_list_stored(self.active)
        &&& self.completed is Some ==> is_scored_stored(self.completed)
        &&& self.delayed is Some ==> is_scored_stored(self.delayed)
        &&& self.waiting is Some ==> is_list_stored(self.waiting)
        &&& self.prioritized is Some ==> is_scored_stored(self.prioritized)
        &&& self.paused is Some ==> is_list_stored(self.paused)
        &&& self.failed is Some ==> is_scored_stored(self.failed)
    }

    /// `metrics` are the counts of what is stored.
    pub open spec fn counts_are(self, metrics: QueueMetrics) -> bool {
        let meta = match self.meta {
            Some(meta) => meta,
            None => Meta { processing: 0, paused: false },
        };
        &&& metrics.last_id == match self.id {
            Some(bytes) => numbers::stored_count(bytes@),
            None => 0,
        }
        &&& metrics.stalled == set_in(self.stalled).len()
        &&& metrics.active == list_in(self.active).len()
        &&& metrics.completed == entries_in(self.completed).len()
        &&& metrics.delayed == entries_in(self.delayed).len()
        &&& metrics.waiting == list_in(self.waiting).len()
        &&& metrics.processing == meta.processing
        &&& metrics.is_paused == meta.paused
        &&& metrics.prioritized == entries_in(self.prioritized).len()
        &&& metrics.failed == entries_in(self.failed).len()
        &&& metrics.paused == list_in(self.paused).len()
        &&& metrics.event_mode == QueueMetrics::zero().event_mode
    }

    /// Counts what is stored. What is not stored counts as empty; what cannot
    /// be read is an error.
    pub fn get_metrics(self) -> (metrics: KioResult<QueueMetrics>)
        ensures
            match metrics {
                Ok(metrics) => self.readable() && self.counts_are(metrics),
                Err(error) => !self.readable() && error is JsonError,
            },
    {
        let last_id: u64 = match &self.id {
            Some(bytes) => stored_counter(bytes.as_slice()),
            None => 0,
        };
        let meta = match self.meta {
            Some(meta) => meta,
            None => Meta::default(),
        };
        let stalled: u64 = count_set(self.stalled)?;
        let active: u64 = count_list(self.active)?;
        let completed: u64 = count_scores(self.completed)?;
        let delayed: u64 = count_scores(self.delayed)?;
        let waiting: u64 = count_list(self.waiting)?;
        let prioritized: u64 = count_scores(self.prioritized)?;
        let failed: u64 = count_scores(self.failed)?;
        let paused: u64 = count_list(self.paused)?;
        let mut metrics = QueueMetrics::default();
        metrics.last_id = last_id;
        metrics.stalled = stalled;
        metrics.active = active;
        metrics.completed = completed;
        metrics.delayed = delayed;
        metrics.waiting = waiting;
        metrics.processing = meta.processing;
        metrics.is_paused = meta.paused;
        metrics.prioritized = prioritized;
        metrics.failed = failed;
        metrics.paused = paused;
        Ok(metrics)
    }
}

/// The number of ids in a list.
fn count_list(stored: Option<Vec<u8>>) -> (count: KioResult<u64>)
    ensures
        match count {
            Ok(count) => (stored is Some ==> is_list_stored(stored)) && count == list_in(
                stored,
            ).len(),
            Err(error) => stored is Some && !is_list_stored(stored) && error is JsonError,
        },
{
    match stored {
        Some(bytes) => match read_list(bytes) {
            Ok(ids) => Ok(ids.len() as u64),
            Err(message) => Err(KioError::JsonError(message)),
        },
        None => Ok(0),
    }
}

/// The number of ids in a set.
fn count_set(stored: Option<Vec<u8>>) -> (count: KioResult<u64>)
    ensures
        match count {
            Ok(count) => (stored is Some ==> is_set_stored(stored)) && count == set_in(
                stored,
            ).len(),
            Err(error) => stored is Some && !is_set_stored(stored) && error is JsonError,
        },
{
    match stored {
        Some(bytes) => match read_set(bytes) {
            Ok(ids) => Ok(ids.len() as u64),
            Err(message) => Err(KioError::JsonError(message)),
        },
        None => Ok(0),
    }
}

/// The number of entries of a sorted set.
fn count_scores(stored: Option<Vec<u8>>) -> (count: KioResult<u64>)
    ensures
        match count {
            Ok(count) => (stored is Some ==> is_scored_stored(stored)) && count == entries_in(
                stored,
            ).len(),
            Err(error) => stored is Some && !is_scored_stored(stored) && error is JsonError,
        },
{
    match stored {
        Some(bytes) => match read_scores(bytes) {
            Ok(set) => Ok(set.count() as u64),
            Err(message) => Err(KioError::JsonError(message)),
        },
        None => Ok(0),
    }
}

} // verus!
