//! Lists and sets: popping, moving, deleting, counting.
use super::{store_key, InMemoryStore};
use crate::events::QueueStreamEvent;
use crate::queue::{CollectionSuffix, QueueMetrics};
use crate::stores::state::StoreState;
use crate::utils::sequences;
use crate::utils::slot_map;
use crate::utils::sorted_set::score_bits;
use vstd::prelude::*;

verus! {

/// The record keys that are left after the jobs up to `last_id` were deleted.
pub open spec fn jobs_above(last_id: u64) -> spec_fn(u128) -> bool {
    |key: u128| key % (crate::queue::collections::PAYLOAD_LIMIT as u128) > last_id
}

impl<D, R, P, M> InMemoryStore<D, R, P, M> {
    /// Takes the ids of the delayed jobs whose score lies in `[start, stop]`,
    /// and the ids of those whose score lies before `start`.
    pub fn get_delayed_at(&mut self, start: i64, stop: i64) -> (due: (Vec<u64>, Vec<u64>))
        requires
            old(self).wf(),
        ensures
            final(self).wf(),
            due.0@ == sequences::values_of(
                old(self)@.delayed.filter(
                    sequences::between_scores(start as i128, stop as i128),
                ),
            ),
            due.1@ == sequences::values_of(
                old(self)@.delayed.filter(sequences::below_score(start as i128)),
            ),
            final(self)@ == (StoreState {
                delayed: old(self)@.delayed.filter(
                    sequences::not_due(start as i128, stop as i128),
                ),
                ..old(self)@
            }),
    {
        proof {
            sequences::lemma_due(self@.delayed, start, stop);
        }
        let begin: i128 = start as i128;
        let jobs = self.delayed.take_between(begin, stop as i128);
        let missed = self.delayed.take_between(sequences::LOWEST_SCORE, begin - 1);
        (jobs, missed)
    }

    /// Takes the entry with the lowest score, or the highest where `min` is
    /// false, out of a sorted set: `(id, score)`, if there is one. The score of
    /// an entry below zero comes as the unsigned number with its bits.
    pub fn pop_set(&mut self, col: CollectionSuffix, min: bool) -> (popped: Vec<(u64, u64)>)
        requires
            old(self).wf(),
        ensures
            final(self).wf(),
            match old(self)@.entries_of(col) {
                Some(entries) => if entries.len() == 0 {
                    popped@.len() == 0 && final(self)@ == old(self)@
                } else if min {
                    &&& popped@ == seq![(entries[0].1, sequences::score_bits(entries[0].0))]
                    &&& final(self)@ == old(self)@.with_entries_of(col, entries.skip(1))
                } else {
                    popped@ == seq![
                        (entries.last().1, sequences::score_bits(entries.last().0)),
                    ] && final(self)@ == old(
                        self,
                    )@.with_entries_of(col, entries.drop_last())
                },
                None => popped@.len() == 0 && final(self)@ == old(self)@,
            },
    {
        let pair = match col {
            CollectionSuffix::Completed => self.completed.pop(min),
            CollectionSuffix::Delayed => self.delayed.pop(min),
            CollectionSuffix::Failed => self.failed.pop(min),
            CollectionSuffix::Prioritized => self.prioritized.pop(min),
            _ => None,
        };
        proof {
            if let Some(entries) = old(self)@.entries_of(col) {
                if pair is Some {
                    if min {
                        assert(entries.skip(1) =~= self@.entries_of(col)->0);
                    } else {
                        assert(entries.drop_last() =~= self@.entries_of(col)->0);
                    }
                }
            }
        }
        let mut popped: Vec<(u64, u64)> = Vec::new();
        if let Some((score, id)) = pair {
            popped.push((id, score_bits(score)));
        }
        popped
    }

    /// Moves the last id of the list `src` to the front of the list `dst`, and
    /// gives it. Nothing where one of the two is no list, or there is no id.
    pub fn pop_back_push_front(&mut self, src: CollectionSuffix, dst: CollectionSuffix) -> (moved:
        Option<u64>)
        requires
            old(self).wf(),
            old(self)@.can_move(src, dst) ==> old(self)@.has_room(dst, false),
        ensures
            final(self).wf(),
            if old(self)@.can_move(src, dst) {
                moved == Some(old(self)@.ids_of(src).last()) && final(self)@ == old(
                    self,
                )@.last_moved(src, dst)
            } else {
                moved is None && final(self)@ == old(self)@
            },
    {
        let ghost before = self@;
        match dst {
            CollectionSuffix::Active | CollectionSuffix::Wait | CollectionSuffix::Paused => {},
            _ => return None,
        }
        let popped = match src {
            CollectionSuffix::Active => self.active.pop_back(),
            CollectionSuffix::Wait => self.waiting.pop_back(),
            CollectionSuffix::Paused => self.paused.pop_back(),
            _ => None,
        };
        let value: u64 = match popped {
            Some(value) => value,
            None => return None,
        };
        assert(self@.ids_of(src) =~= before.ids_of(src).drop_last());
        match dst {
            CollectionSuffix::Active => self.active.push_front(value),
            CollectionSuffix::Wait => self.waiting.push_front(value),
            _ => self.paused.push_front(value),
        }
        Some(value)
    }

    /// Deletes the collection `key`.
    pub fn remove(&mut self, key: CollectionSuffix)
        requires
            old(self).wf(),
        ensures
            final(self).wf(),
            final(self)@ == old(self)@.removed(key),
    {
        match key {
            CollectionSuffix::Active => self.active.clear(),
            CollectionSuffix::Completed => self.completed.clear(),
            CollectionSuffix::Delayed => self.delayed.clear(),
            CollectionSuffix::Stalled => self.stalled.clear(),
            CollectionSuffix::Prioritized => self.prioritized.clear(),
            CollectionSuffix::Wait => self.waiting.clear(),
            CollectionSuffix::Paused => self.paused.clear(),
            CollectionSuffix::Failed => self.failed.clear(),
            CollectionSuffix::Job(_) => self.jobs.remove(store_key(key)),
            CollectionSuffix::Lock(_) | CollectionSuffix::StalledCheck => {
                self.locks.remove(store_key(key))
            },
            _ => {},
        }
    }

    /// Empties every list and set; job records stay.
    pub fn clear_collections(&mut self)
        requires
            old(self).wf(),
        ensures
            final(self).wf(),
            final(self)@ == old(self)@.collections_cleared(),
    {
        self.completed.clear();
        self.failed.clear();
        self.delayed.clear();
        self.prioritized.clear();
        self.stalled.clear();
        self.waiting.clear();
        self.paused.clear();
        self.active.clear();
    }

    /// Deletes the records of the jobs up to and including `last_id`.
    pub fn clear_jobs(&mut self, last_id: u64)
        requires
            old(self).wf(),
        ensures
            final(self).wf(),
            final(self)@ == (StoreState {
                jobs: old(self)@.jobs.with_entries(
                    old(self)@.jobs.entries.restrict(
                        old(self)@.jobs.entries.dom().filter(jobs_above(last_id)),
                    ),
                ),
                ..old(self)@
            }),
    {
        let ghost before = self@;
        let ghost records = self@.jobs.entries;
        let keys = self.jobs.all_keys();
        let mut i: usize = 0;
        while i < keys.len()
            invariant
                self.wf(),
                i <= keys.len(),
                slot_map::lists_keys(keys@, records.dom()),
                self@ == (StoreState { jobs: self@.jobs, ..before }),
                before.jobs.entries == records,
                self@.jobs.disabled == before.jobs.disabled,
                forall|key: u128| #[trigger]
                    self@.jobs.entries.dom().contains(key) <==> records.dom().contains(key) && (
                    jobs_above(last_id)(key) || !keys@.take(i as int).contains(key)),
                forall|key: u128| #[trigger]
                    self@.jobs.entries.dom().contains(key) ==> self@.jobs.entries[key]
                        == records[key],
            decreases keys.len() - i,
        {
            let key: u128 = keys[i];
            let ghost seen = keys@.take(i as int);
            let ghost at = self@.jobs.entries;
            if key % (crate::queue::collections::PAYLOAD_LIMIT as u128) <= last_id as u128 {
                self.jobs.remove(key);
            }
            i += 1;
            proof {
                assert(keys@.take(i as int) =~= seen.push(key));
                assert forall|other: u128| keys@.take(i as int).contains(other) <==> (
                seen.contains(other) || other == key) by {
                    if seen.contains(other) {
                        let k = choose|k: int| 0 <= k < seen.len() && seen[k] == other;
                        assert(seen.push(key)[k] == other);
                    }
                    if other == key {
                        assert(seen.push(key)[seen.len() as int] == key);
                    }
                    if seen.push(key).contains(other) && other != key {
                        let k = choose|k: int|
                            0 <= k < seen.push(key).len() && seen.push(key)[k] == other;
                        assert(seen[k] == other);
                    }
                }
                assert(!seen.contains(key)) by {
                    if seen.contains(key) {
                        let k = choose|k: int| 0 <= k < seen.len() && seen[k] == key;
                        assert(keys@[k] < keys@[i as int - 1]);
                    }
                }
                assert(self@.jobs.entries =~= if jobs_above(last_id)(key) {
                    at
                } else {
                    at.remove(key)
                });
            }
        }
        proof {
            assert(keys@.take(keys@.len() as int) =~= keys@);
            let left = records.restrict(records.dom().filter(jobs_above(last_id)));
            assert forall|key: u128|
                self@.jobs.entries.dom().contains(key) == left.dom().contains(key) by {
                if records.dom().contains(key) {
                    assert(keys@.contains(key));
                }
            }
            assert(self@.jobs.entries =~= left);
            assert(self@.jobs =~= before.jobs.with_entries(left));
        }
    }

    /// The counts of the queue's jobs by state.
    pub fn get_metrics(&self) -> (metrics: QueueMetrics)
        requires
            self.wf(),
        ensures
            metrics == self@.metrics(),
    {
        QueueMetrics::new(
            self.id_counter,
            self.processing,
            self.active.len() as u64,
            self.stalled.count() as u64,
            self.completed.count() as u64,
            self.delayed.count() as u64,
            self.prioritized.count() as u64,
            self.paused.len() as u64,
            self.failed.count() as u64,
            self.waiting.len() as u64,
            self.is_paused,
            self.event_mode,
        )
    }

    /// Pauses the queue, or resumes it: the waiting jobs move behind the paused
    /// ones, or the other way round. Gives the event to publish.
    pub fn pause(&mut self, pause: bool) -> (event: QueueStreamEvent<R, P>)
        requires
            old(self).wf(),
            old(self)@.can_pause(pause),
        ensures
            final(self).wf(),
            final(self)@ == old(self)@.paused_or_resumed(pause),
            event == QueueStreamEvent::<R, P>::pause_told(pause, event.id),
    {
        let ghost before = self@;
        if pause {
            while !self.waiting.is_empty()
                invariant
                    self.wf(),
                    before.can_pause(true),
                    self@.waiting.items.len() <= before.waiting.items.len(),
                    self@.waiting == before.waiting.with_items(
                        before.waiting.items.skip(
                            before.waiting.items.len() - self@.waiting.items.len(),
                        ),
                    ),
                    self@.paused.items == before.paused.items + before.waiting.items.take(
                        before.waiting.items.len() - self@.waiting.items.len(),
                    ),
                    self@.paused.front_room == before.paused.front_room,
                    self@.paused.back_room == before.paused.back_room - (
                    before.waiting.items.len() - self@.waiting.items.len()),
                    self@ == (StoreState {
                        waiting: self@.waiting,
                        paused: self@.paused,
                        ..before
                    }),
                decreases self@.waiting.items.len(),
            {
                let ghost at = self@;
                let ghost n = before.waiting.items.len() - at.waiting.items.len();
                if let Some(entry) = self.waiting.pop_front() {
                    assert(at.waiting.items[0] == entry);
                    assert(entry == before.waiting.items[n]);
                    self.paused.push_back(entry);
                    proof {
                        assert(self@.waiting.items =~= at.waiting.items.skip(1));
                        assert(at.waiting.items.skip(1) =~= before.waiting.items.skip(n + 1));
                        assert(self@.paused.items =~= before.paused.items
                            + before.waiting.items.take(n + 1));
                    }
                }
            }
            proof {
                assert(before.waiting.items.take(before.waiting.items.len() as int)
                    =~= before.waiting.items);
                assert(before.waiting.items.skip(before.waiting.items.len() as int)
                    =~= Seq::empty());
            }
        } else {
            while !self.paused.is_empty()
                invariant
                    self.wf(),
                    before.can_pause(false),
                    self@.paused.items.len() <= before.paused.items.len(),
                    self@.paused == before.paused.with_items(
                        before.paused.items.skip(
                            before.paused.items.len() - self@.paused.items.len(),
                        ),
                    ),
                    self@.waiting.items == before.waiting.items + before.paused.items.take(
                        before.paused.items.len() - self@.paused.items.len(),
                    ),
                    self@.waiting.front_room == before.waiting.front_room,
                    self@.waiting.back_room == before.waiting.back_room - (
                    before.paused.items.len() - self@.paused.items.len()),
                    self@ == (StoreState {
                        waiting: self@.waiting,
                        paused: self@.paused,
                        ..before
                    }),
                decreases self@.paused.items.len(),
            {
                let ghost at = self@;
                let ghost n = before.paused.items.len() - at.paused.items.len();
                if let Some(entry) = self.paused.pop_front() {
                    assert(at.paused.items[0] == entry);
                    assert(entry == before.paused.items[n]);
                    self.waiting.push_back(entry);
                    proof {
                        assert(self@.paused.items =~= at.paused.items.skip(1));
                        assert(at.paused.items.skip(1) =~= before.paused.items.skip(n + 1));
                        assert(self@.waiting.items =~= before.waiting.items
                            + before.paused.items.take(n + 1));
                    }
                }
            }
            proof {
                assert(before.paused.items.take(before.paused.items.len() as int)
                    =~= before.paused.items);
                assert(before.paused.items.skip(before.paused.items.len() as int)
                    =~= Seq::empty());
            }
        }
        self.is_paused = pause;
        QueueStreamEvent::pause_event(pause)
    }
}

} // verus!
