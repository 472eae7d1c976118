//! A map whose entries may expire.
//!
//! Time is counted in nanoseconds from the moment the map was made. Each
//! method that depends on the time has a twin that takes it as an argument.
use crate::outside::monotonic::{elapsed_since, instant_now};
use crate::time::{TimeSpan, NANOS_PER_SEC};
use crate::utils::slot_map::{self, SlotMap};
use std::time::Instant;
use vstd::prelude::*;

verus! {

/// A value, with the time at which it expires where it does.
#[derive(Debug)]
pub enum ExpiryValue<V> {
    /// The value never expires.
    Constant(V),
    /// The value expires.
    Expirable {
        /// The value.
        value: V,
        /// When it expires.
        expires_at: u128,
    },
}

impl<V> ExpiryValue<V> {
    /// The value.
    pub open spec fn value(self) -> V {
        match self {
            ExpiryValue::Constant(value) => value,
            ExpiryValue::Expirable { value, .. } => value,
        }
    }

    /// The value has expired at `now`.
    pub open spec fn expired_at(self, now: u128) -> bool {
        self matches ExpiryValue::Expirable { expires_at, .. } && now >= expires_at
    }

    /// The same expiry with another value.
    pub open spec fn with_value(self, value: V) -> ExpiryValue<V> {
        match self {
            ExpiryValue::Constant(_) => ExpiryValue::Constant(value),
            ExpiryValue::Expirable { expires_at, .. } => ExpiryValue::Expirable {
                value,
                expires_at,
            },
        }
    }

    /// Whether the value has expired at `now`; never for a constant.
    pub fn is_expired(&self, now: u128) -> (expired: bool)
        ensures
            expired == self.expired_at(now),
    {
        match self {
            ExpiryValue::Constant(_) => false,
            ExpiryValue::Expirable { expires_at, .. } => now >= *expires_at,
        }
    }

    /// Whether the value can expire.
    pub fn is_expirable(&self) -> (expirable: bool)
        ensures
            expirable == (self is Expirable),
    {
        match self {
            ExpiryValue::Constant(_) => false,
            ExpiryValue::Expirable { .. } => true,
        }
    }

    /// The value.
    pub fn get(&self) -> (value: &V)
        ensures
            *value == self.value(),
    {
        match self {
            ExpiryValue::Constant(value) => value,
            ExpiryValue::Expirable { value, .. } => value,
        }
    }
}

/// What a [`TimedMap`] holds.
#[verifier::ext_equal]
pub struct TimedState<V> {
    /// The entries, expired ones included.
    pub entries: Map<u128, ExpiryValue<V>>,
    /// Nothing expires.
    pub disabled: bool,
}

impl<V> TimedState<V> {
    /// Nothing is held, and entries expire.
    pub open spec fn fresh() -> TimedState<V> {
        TimedState { entries: Map::empty(), disabled: false }
    }

    /// The entry under `key` counts as expired at `now`.
    pub open spec fn expired(self, key: u128, now: u128) -> bool {
        self.entries.dom().contains(key) && !self.disabled && self.entries[key].expired_at(now)
    }

    /// There is an entry under `key` that does not count as expired at `now`.
    pub open spec fn live(self, key: u128, now: u128) -> bool {
        self.entries.dom().contains(key) && !self.expired(key, now)
    }

    /// The state with these entries.
    pub open spec fn with_entries(self, entries: Map<u128, ExpiryValue<V>>) -> TimedState<V> {
        TimedState { entries, ..self }
    }

    /// After the entry under `key` was looked at at `now`: it is gone if it
    /// had expired.
    pub open spec fn visited(self, key: u128, now: u128) -> TimedState<V> {
        if self.expired(key, now) {
            self.with_entries(self.entries.remove(key))
        } else {
            self
        }
    }

    /// After every entry that had expired at `now` was removed.
    pub open spec fn purged(self, now: u128) -> TimedState<V> {
        self.with_entries(
            self.entries.restrict(self.entries.dom().filter(|key: u128| !self.expired(key, now))),
        )
    }

    /// After `value` was put under `key` for good.
    pub open spec fn with_constant(self, key: u128, value: V) -> TimedState<V> {
        self.with_entries(self.entries.insert(key, ExpiryValue::Constant(value)))
    }

    /// After `value` was put under `key` until `expires_at`; for good where
    /// nothing expires.
    pub open spec fn with_expirable(self, key: u128, value: V, expires_at: u128) -> TimedState<V> {
        if self.disabled {
            self.with_constant(key, value)
        } else {
            self.with_entries(
                self.entries.insert(key, ExpiryValue::Expirable { value, expires_at }),
            )
        }
    }

    /// After the value under `key` was replaced by `value`.
    pub open spec fn with_replaced(self, key: u128, value: V) -> TimedState<V> {
        self.with_entries(self.entries.insert(key, self.entries[key].with_value(value)))
    }

    /// After the entry under `key`, if there is one, was given the expiry
    /// `expires_at`.
    pub open spec fn with_expiry(self, key: u128, expires_at: u128) -> TimedState<V> {
        if self.entries.dom().contains(key) {
            self.with_entries(
                self.entries.insert(
                    key,
                    ExpiryValue::Expirable { value: self.entries[key].value(), expires_at },
                ),
            )
        } else {
            self
        }
    }

    /// After the entry under `key` was removed.
    pub open spec fn without(self, key: u128) -> TimedState<V> {
        self.with_entries(self.entries.remove(key))
    }
}

/// A value with its expiry, where it has one.
pub open spec fn entry_with<V>(value: V, expiry: Option<u128>) -> ExpiryValue<V> {
    match expiry {
        Some(expires_at) => ExpiryValue::Expirable { value, expires_at },
        None => ExpiryValue::Constant(value),
    }
}

/// Taking a value out and putting another one back with the same expiry
/// replaces it.
pub proof fn lemma_put_back<V>(
    state: TimedState<V>,
    key: u128,
    before: V,
    expiry: Option<u128>,
    after: V,
)
    requires
        state.entries.dom().contains(key),
        state.entries[key] == entry_with(before, expiry),
    ensures
        state.without(key).with_entries(
            state.without(key).entries.insert(key, entry_with(after, expiry)),
        ) == state.with_replaced(key, after),
        before == state.entries[key].value(),
{
    assert(state.without(key).entries.insert(key, entry_with(after, expiry))
        =~= state.with_replaced(key, after).entries);
}

/// The point in time `timeout` after `now`.
pub open spec fn deadline(now: u128, timeout: TimeSpan) -> int {
    now + timeout@
}

/// A map that can evict entries after a time to live.
pub struct TimedMap<V> {
    inner: SlotMap<ExpiryValue<V>>,
    disable_expiration: bool,
    origin: Instant,
}

impl<V> View for TimedMap<V> {
    type V = TimedState<V>;

    closed spec fn view(&self) -> TimedState<V> {
        TimedState { entries: self.inner@, disabled: self.disable_expiration }
    }
}

impl<V> TimedMap<V> {
    /// The entries are in order.
    pub closed spec fn wf(self) -> bool {
        self.inner.wf()
    }

    /// An empty map whose entries expire.
    pub fn new() -> (map: Self)
        ensures
            map.wf(),
            map@ == TimedState::<V>::fresh(),
    {
        TimedMap { inner: SlotMap::new(), disable_expiration: false, origin: instant_now() }
    }

    /// The time now, in nanoseconds since the map was made.
    pub fn now(&self) -> (now: u128)
        ensures
            now < 0x1_0000_0000_0000_0000 * NANOS_PER_SEC,
    {
        let elapsed = elapsed_since(&self.origin);
        nanos_of(elapsed)
    }

    /// Switches expiration off, or on again.
    pub fn toggle_expiration(&mut self)
        requires
            old(self).wf(),
        ensures
            final(self).wf(),
            final(self)@ == (TimedState { disabled: !old(self)@.disabled, ..old(self)@ }),
    {
        self.disable_expiration = !self.disable_expiration;
    }

    /// Puts `val` under `key` for good.
    pub fn insert_constant(&mut self, key: u128, val: V)
        requires
            old(self).wf(),
        ensures
            final(self).wf(),
            final(self)@ == old(self)@.with_constant(key, val),
    {
        self.inner.insert(key, ExpiryValue::Constant(val));
    }

    /// Puts `val` under `key` at `now`, to expire after `timeout`; for good
    /// where nothing expires.
    pub fn insert_expirable_at(&mut self, key: u128, val: V, timeout: TimeSpan, now: u128)
        requires
            old(self).wf(),
            timeout.wf(),
            deadline(now, timeout) <= u128::MAX,
        ensures
            final(self).wf(),
            final(self)@ == old(self)@.with_expirable(key, val, deadline(now, timeout) as u128),
    {
        if self.disable_expiration {
            return self.insert_constant(key, val);
        }
        let expires_at: u128 = now + nanos_of(timeout);
        self.inner.insert(key, ExpiryValue::Expirable { value: val, expires_at });
    }

    /// Puts `val` under `key`, to expire after `timeout`.
    pub fn insert_expirable(&mut self, key: u128, val: V, timeout: TimeSpan)
        requires
            old(self).wf(),
            timeout.wf(),
        ensures
            final(self).wf(),
            exists|now: u128|
                deadline(now, timeout) <= u128::MAX && final(self)@ == #[trigger] old(
                    self,
                )@.with_expirable(key, val, deadline(now, timeout) as u128),
    {
        let now: u128 = self.now();
        self.insert_expirable_at(key, val, timeout, now);
    }

    /// The value under `key`, unless it has expired at `now`; then the entry
    /// is evicted.
    pub fn get_at(&mut self, key: u128, now: u128) -> (value: Option<&V>)
        requires
            old(self).wf(),
        ensures
            final(self).wf(),
            final(self)@ == old(self)@.visited(key, now),
            match value {
                Some(value) => old(self)@.live(key, now) && *value == old(
                    self,
                )@.entries[key].value(),
                None => !old(self)@.live(key, now),
            },
    {
        let expired = match self.inner.get(key) {
            Some(found) => !self.disable_expiration && found.is_expired(now),
            None => return None,
        };
        if expired {
            let _ = self.inner.remove(key);
            return None;
        }
        self.peek(key)
    }

    /// The value under `key`, unless it has expired.
    pub fn get(&mut self, key: u128) -> (value: Option<&V>)
        requires
            old(self).wf(),
        ensures
            final(self).wf(),
            exists|now: u128| #[trigger]
                old(self)@.visited(key, now) == final(self)@ && match value {
                    Some(value) => old(self)@.live(key, now) && *value == old(
                        self,
                    )@.entries[key].value(),
                    None => !old(self)@.live(key, now),
                },
    {
        let now: u128 = self.now();
        self.get_at(key, now)
    }

    /// The value under `key`, expired or not.
    pub fn peek(&self, key: u128) -> (value: Option<&V>)
        requires
            self.wf(),
        ensures
            match value {
                Some(value) => self@.entries.dom().contains(key) && *value
                    == self@.entries[key].value(),
                None => !self@.entries.dom().contains(key),
            },
    {
        match self.inner.get(key) {
            Some(found) => Some(found.get()),
            None => None,
        }
    }

    /// Replaces the value under `key` by `val`; its expiry stays. Gives `val`
    /// back where there is no entry.
    pub fn replace(&mut self, key: u128, val: V) -> (replaced: Result<V, V>)
        requires
            old(self).wf(),
        ensures
            final(self).wf(),
            match replaced {
                Ok(before) => old(self)@.entries.dom().contains(key) && before == old(
                    self,
                )@.entries[key].value() && final(self)@ == old(self)@.with_replaced(key, val),
                Err(back) => !old(self)@.entries.dom().contains(key) && back == val && final(self)@
                    == old(self)@,
            },
    {
        match self.inner.remove(key) {
            Some(ExpiryValue::Constant(before)) => {
                self.inner.insert(key, ExpiryValue::Constant(val));
                assert(self@ =~= old(self)@.with_replaced(key, val));
                Ok(before)
            },
            Some(ExpiryValue::Expirable { value: before, expires_at }) => {
                self.inner.insert(key, ExpiryValue::Expirable { value: val, expires_at });
                assert(self@ =~= old(self)@.with_replaced(key, val));
                Ok(before)
            },
            None => {
                assert(self@ =~= old(self)@);
                Err(val)
            },
        }
    }

    /// Takes the value under `key` out, with its expiry, unless it has expired
    /// at `now`; then the entry is evicted.
    pub fn take_at(&mut self, key: u128, now: u128) -> (taken: Option<(V, Option<u128>)>)
        requires
            old(self).wf(),
        ensures
            final(self).wf(),
            match taken {
                Some((value, expiry)) => old(self)@.live(key, now) && old(self)@.entries[key]
                    == entry_with(value, expiry) && final(self)@ == old(self)@.without(key),
                None => !old(self)@.live(key, now) && final(self)@ == old(self)@.visited(key, now),
            },
    {
        if !self.contains_key_at(key, now) {
            return None;
        }
        match self.inner.remove(key) {
            Some(ExpiryValue::Constant(value)) => Some((value, None)),
            Some(ExpiryValue::Expirable { value, expires_at }) => Some((value, Some(expires_at))),
            None => None,
        }
    }

    /// Puts a value under `key`, with its expiry.
    pub fn put(&mut self, key: u128, value: V, expiry: Option<u128>)
        requires
            old(self).wf(),
        ensures
            final(self).wf(),
            final(self)@ == old(self)@.with_entries(
                old(self)@.entries.insert(key, entry_with(value, expiry)),
            ),
    {
        let entry = match expiry {
            Some(expires_at) => ExpiryValue::Expirable { value, expires_at },
            None => ExpiryValue::Constant(value),
        };
        self.inner.insert(key, entry);
    }

    /// Evicts every entry that has expired at `now` and gives the keys of the
    /// others in ascending order.
    pub fn iter_at(&mut self, now: u128) -> (keys: Vec<u128>)
        requires
            old(self).wf(),
        ensures
            final(self).wf(),
            final(self)@ == old(self)@.purged(now),
            slot_map::lists_keys(keys@, final(self)@.entries.dom()),
    {
        self.evict_at(now);
        self.inner.keys()
    }

    /// Evicts every entry that has expired and gives the keys of the others in
    /// ascending order.
    pub fn iter(&mut self) -> (keys: Vec<u128>)
        requires
            old(self).wf(),
        ensures
            final(self).wf(),
            exists|now: u128| final(self)@ == #[trigger] old(self)@.purged(now),
            slot_map::lists_keys(keys@, final(self)@.entries.dom()),
    {
        let now: u128 = self.now();
        self.iter_at(now)
    }

    /// The keys in ascending order, those of expired entries included.
    pub fn all_keys(&self) -> (keys: Vec<u128>)
        ensures
            slot_map::lists_keys(keys@, self@.entries.dom()),
    {
        self.inner.keys()
    }

    /// Whether the map is empty; expired entries count until they are evicted.
    pub fn is_empty(&self) -> (empty: bool)
        ensures
            empty == (self@.entries.dom() =~= Set::<u128>::empty()),
    {
        self.inner.is_empty()
    }

    /// Whether there is an entry under `key` that has not expired at `now`; an
    /// expired one is evicted.
    pub fn contains_key_at(&mut self, key: u128, now: u128) -> (found: bool)
        requires
            old(self).wf(),
        ensures
            final(self).wf(),
            final(self)@ == old(self)@.visited(key, now),
            found == old(self)@.live(key, now),
    {
        if self.inner.contains_key(key) {
            return self.get_at(key, now).is_some();
        }
        false
    }

    /// Whether there is an entry under `key` that has not expired.
    pub fn contains_key(&mut self, key: u128) -> (found: bool)
        requires
            old(self).wf(),
        ensures
            final(self).wf(),
            exists|now: u128| #[trigger]
                old(self)@.visited(key, now) == final(self)@ && found == old(self)@.live(key, now),
    {
        let now: u128 = self.now();
        self.contains_key_at(key, now)
    }

    /// The number of entries that can expire.
    pub fn len_expired(&self) -> (len: usize)
        requires
            self.wf(),
        ensures
            len == self@.entries.dom().filter(
                |key: u128| self@.entries[key] is Expirable,
            ).len(),
    {
        let keys = self.inner.keys();
        let ghost expirable = |key: u128| self@.entries[key] is Expirable;
        let mut len: usize = 0;
        let mut i: usize = 0;
        proof {
            assert(keys@.take(0).filter(expirable) =~= Seq::empty()) by {
                reveal(Seq::filter);
            }
        }
        while i < keys.len()
            invariant
                self.wf(),
                i <= keys.len(),
                len <= i,
                slot_map::lists_keys(keys@, self@.entries.dom()),
                expirable == (|key: u128| self@.entries[key] is Expirable),
                len == keys@.take(i as int).filter(expirable).len(),
            decreases keys.len() - i,
        {
            proof {
                crate::utils::sequences::lemma_filter_step(keys@, i as int, expirable);
            }
            if let Some(entry) = self.inner.get(keys[i]) {
                if entry.is_expirable() {
                    len += 1;
                }
            }
            i += 1;
        }
        proof {
            assert(keys@.take(keys@.len() as int) =~= keys@);
            lemma_listed_count(keys@, self@.entries.dom(), expirable);
        }
        len
    }

    /// Removes the entry under `key`.
    pub fn remove(&mut self, key: u128)
        requires
            old(self).wf(),
        ensures
            final(self).wf(),
            final(self)@ == old(self)@.without(key),
    {
        let _ = self.inner.remove(key);
    }

    /// Lets the entry under `key` expire `duration` after `now`, whether or not
    /// it could expire before. Gives the new deadline, or `None` where there is
    /// no entry.
    pub fn update_expiration_status_at(&mut self, key: u128, duration: TimeSpan, now: u128) -> (next:
        Option<u128>)
        requires
            old(self).wf(),
            duration.wf(),
            deadline(now, duration) <= u128::MAX,
        ensures
            final(self).wf(),
            final(self)@ == old(self)@.with_expiry(key, deadline(now, duration) as u128),
            next == if old(self)@.entries.dom().contains(key) {
                Some(deadline(now, duration) as u128)
            } else {
                None
            },
    {
        let expires_at: u128 = now + nanos_of(duration);
        match self.inner.remove(key) {
            Some(ExpiryValue::Constant(value)) | Some(ExpiryValue::Expirable { value, .. }) => {
                self.inner.insert(key, ExpiryValue::Expirable { value, expires_at });
                assert(self@ =~= old(self)@.with_expiry(key, expires_at));
                Some(expires_at)
            },
            None => {
                assert(self@ =~= old(self)@);
                None
            },
        }
    }

    /// Lets the entry under `key` expire `duration` from now.
    pub fn update_expiration_status(&mut self, key: u128, duration: TimeSpan) -> (next: Option<
        u128,
    >)
        requires
            old(self).wf(),
            duration.wf(),
        ensures
            final(self).wf(),
            exists|now: u128|
                deadline(now, duration) <= u128::MAX && final(self)@ == #[trigger] old(
                    self,
                )@.with_expiry(key, deadline(now, duration) as u128) && next == if old(
                    self,
                )@.entries.dom().contains(key) {
                    Some(deadline(now, duration) as u128)
                } else {
                    None
                },
    {
        let now: u128 = self.now();
        self.update_expiration_status_at(key, duration, now)
    }

    /// Whether entries expire.
    pub fn expires_entries(&self) -> (expires: bool)
        ensures
            expires == !self@.disabled,
    {
        !self.disable_expiration
    }

    /// Removes every entry.
    pub fn clear(&mut self)
        requires
            old(self).wf(),
        ensures
            final(self).wf(),
            final(self)@ == old(self)@.with_entries(Map::empty()),
    {
        self.inner.clear();
    }

    /// Evicts every entry that has expired at `now`.
    fn evict_at(&mut self, now: u128)
        requires
            old(self).wf(),
        ensures
            final(self).wf(),
            final(self)@ == old(self)@.purged(now),
    {
        let ghost before = self@;
        let keys = self.inner.keys();
        let mut i: usize = 0;
        while i < keys.len()
            invariant
                self.wf(),
                i <= keys.len(),
                slot_map::lists_keys(keys@, before.entries.dom()),
                self@.disabled == before.disabled,
                forall|key: u128| #[trigger]
                    self@.entries.dom().contains(key) <==> before.entries.dom().contains(key)
                        && !(before.expired(key, now) && keys@.take(i as int).contains(key)),
                forall|key: u128| #[trigger]
                    self@.entries.dom().contains(key) ==> self@.entries[key]
                        == before.entries[key],
            decreases keys.len() - i,
        {
            let key: u128 = keys[i];
            let ghost seen = keys@.take(i as int);
            let ghost at = self@;
            let expired = match self.inner.get(key) {
                Some(found) => !self.disable_expiration && found.is_expired(now),
                None => false,
            };
            if expired {
                let _ = self.inner.remove(key);
            }
            i += 1;
            proof {
                assert(keys@.take(i as int) =~= seen.push(key));
                assert forall|other: u128| keys@.take(i as int).contains(other) <==> (
                seen.contains(other) || other == key) by {
                    if seen.contains(other) {
                        let k = choose|k: int| 0 <= k < seen.len() && seen[k] == other;
                        assert(seen.push(key)[k] == other);
                    }
                    if other == key {
                        assert(seen.push(key)[seen.len() as int] == key);
                    }
                    if seen.push(key).contains(other) && other != key {
                        let k = choose|k: int|
                            0 <= k < seen.push(key).len() && seen.push(key)[k] == other;
                        assert(seen[k] == other);
                    }
                }
                assert(!seen.contains(key)) by {
                    if seen.contains(key) {
                        let k = choose|k: int| 0 <= k < seen.len() && seen[k] == key;
                        assert(keys@[k] < keys@[i as int - 1]);
                    }
                }
                assert(before.entries.dom().contains(key));
                assert(at.entries.dom().contains(key));
                assert(expired == before.expired(key, now));
                assert(self@.entries =~= if expired {
                    at.entries.remove(key)
                } else {
                    at.entries
                });
            }
        }
        proof {
            assert(keys@.take(keys@.len() as int) =~= keys@);
            assert forall|key: u128| self@.entries.dom().contains(key) == before.purged(
                now,
            ).entries.dom().contains(key) by {
                if before.entries.dom().contains(key) {
                    assert(keys@.contains(key));
                }
            }
            assert(self@.entries =~= before.purged(now).entries);
            assert(self@ =~= before.purged(now));
        }
    }

    /// Evicts every entry that has expired at `now`; none where nothing
    /// expires.
    pub fn purge_expired_at(&mut self, now: u128)
        requires
            old(self).wf(),
        ensures
            final(self).wf(),
            final(self)@ == old(self)@.purged(now),
    {
        if !self.expires_entries() {
            assert(old(self)@.purged(now) =~= old(self)@);
            return ;
        }
        self.evict_at(now);
    }

    /// Evicts every entry that has expired.
    pub fn purge_expired(&mut self)
        requires
            old(self).wf(),
        ensures
            final(self).wf(),
            exists|now: u128| final(self)@ == #[trigger] old(self)@.purged(now),
    {
        let now: u128 = self.now();
        self.purge_expired_at(now);
    }
}

/// The nanoseconds of a span.
pub fn nanos_of(span: TimeSpan) -> (nanos: u128)
    requires
        span.wf(),
    ensures
        nanos == span@,
        nanos < 0x1_0000_0000_0000_0000 * NANOS_PER_SEC,
{
    (span.secs as u128) * 1_000_000_000 + (span.nanos as u128)
}

/// Counting the listed keys with a property counts the members with it.
proof fn lemma_listed_count(keys: Seq<u128>, set: Set<u128>, keep: spec_fn(u128) -> bool)
    requires
        slot_map::lists_keys(keys, set),
    ensures
        keys.filter(keep).len() == set.filter(keep).len(),
{
    lemma_filter_keeps_distinct(keys, keep);
    let kept = keys.filter(keep);
    kept.unique_seq_to_set();
    crate::utils::sequences::lemma_filter_elements(keys, keep);
    assert forall|key: u128| kept.to_set().contains(key) <==> set.filter(keep).contains(key) by {
        if kept.to_set().contains(key) {
            let i = choose|i: int| 0 <= i < kept.len() && kept[i] == key;
            assert(keep(kept[i]) && keys.contains(kept[i]));
        }
        if set.filter(keep).contains(key) {
            lemma_filter_has(keys, keep, key);
        }
    }
    assert(kept.to_set() =~= set.filter(keep));
}

/// What is listed and passes is listed after the filter.
proof fn lemma_filter_has(keys: Seq<u128>, keep: spec_fn(u128) -> bool, key: u128)
    requires
        keys.contains(key),
        keep(key),
    ensures
        keys.filter(keep).contains(key),
    decreases keys.len(),
{
    reveal(Seq::filter);
    let rest = keys.drop_last();
    if keys.last() == key {
        assert(keys.filter(keep) == rest.filter(keep).push(key));
        assert(keys.filter(keep)[rest.filter(keep).len() as int] == key);
    } else {
        let i = choose|i: int| 0 <= i < keys.len() && keys[i] == key;
        assert(rest[i] == key);
        lemma_filter_has(rest, keep, key);
        let j = choose|j: int| 0 <= j < rest.filter(keep).len() && rest.filter(keep)[j] == key;
        assert(keys.filter(keep)[j] == key);
    }
}

/// Filtered distinct keys are distinct.
proof fn lemma_filter_keeps_distinct(keys: Seq<u128>, keep: spec_fn(u128) -> bool)
    requires
        forall|i: int, j: int| 0 <= i < j < keys.len() ==> keys[i] < keys[j],
    ensures
        keys.filter(keep).no_duplicates(),
    decreases keys.len(),
{
    reveal(Seq::filter);
    if keys.len() > 0 {
        let rest = keys.drop_last();
        lemma_filter_keeps_distinct(rest, keep);
        crate::utils::sequences::lemma_filter_elements(rest, keep);
        assert forall|i: int| 0 <= i < rest.filter(keep).len() implies rest.filter(keep)[i]
            != keys.last() by {
            let x = rest.filter(keep)[i];
            assert(rest.contains(x));
            let k = choose|k: int| 0 <= k < rest.len() && rest[k] == x;
            assert(keys[k] < keys[keys.len() - 1]);
        }
    }
}

/// An entry that was put for good is there at any time.
pub proof fn law_constant_never_expires<V>(state: TimedState<V>, key: u128, value: V, now: u128)
    ensures
        state.with_constant(key, value).live(key, now),
        state.with_constant(key, value).entries[key].value() == value,
{
}

/// An entry with a deadline is there before the deadline, and gone from it on;
/// where nothing expires it is there at any time.
pub proof fn law_expirable_until_deadline<V>(
    state: TimedState<V>,
    key: u128,
    value: V,
    expires_at: u128,
    now: u128,
)
    ensures
        state.with_expirable(key, value, expires_at).live(key, now) <==> state.disabled || now
            < expires_at,
        state.with_expirable(key, value, expires_at).entries[key].value() == value,
{
}

/// Purging keeps exactly the entries that are live, with their values, and
/// purging again at the same time changes nothing.
pub proof fn law_purge_keeps_live<V>(state: TimedState<V>, key: u128, now: u128)
    ensures
        state.purged(now).entries.dom().contains(key) <==> state.live(key, now),
        state.live(key, now) ==> state.purged(now).entries[key] == state.entries[key],
        state.purged(now).purged(now) == state.purged(now),
{
    assert(state.purged(now).purged(now) =~= state.purged(now));
}

/// While expiration is off nothing is evicted.
pub proof fn law_disabled_keeps_all<V>(state: TimedState<V>, key: u128, now: u128)
    requires
        state.disabled,
    ensures
        state.purged(now) == state,
        state.visited(key, now) == state,
{
    assert(state.purged(now) =~= state);
}

/// A value is what was put in, whether or not it expires; a constant never expires, and
/// any other expires at its time and not before. Another value takes over the expiry.
pub proof fn law_values_expire_at_their_time<V>(value: V, other: V, expires_at: u128, now: u128)
    ensures
        ({
            let constant = ExpiryValue::Constant(value);
            let expirable = ExpiryValue::Expirable { value, expires_at };
            &&& constant.value() == value && expirable.value() == value
            &&& !constant.expired_at(now)
            &&& expirable.expired_at(now) <==> now >= expires_at
            &&& constant.with_value(other) == ExpiryValue::Constant(other)
            &&& expirable.with_value(other) == (ExpiryValue::Expirable {
                value: other,
                expires_at,
            })
        }),
{
}

/// Looking at an entry removes it if it has expired, and changes nothing else: an entry
/// that has not expired, and every other entry, stays as it was.
pub proof fn law_looking_evicts_only_what_expired<V>(
    state: TimedState<V>,
    key: u128,
    other: u128,
    now: u128,
)
    ensures
        state.live(key, now) ==> state.visited(key, now) == state,
        !state.live(key, now) ==> !state.visited(key, now).entries.dom().contains(key),
        other != key ==> (state.visited(key, now).entries.dom().contains(other)
            <==> state.entries.dom().contains(other)) && state.visited(key, now).entries[other]
            == state.entries[other],
        state.visited(key, now).disabled == state.disabled,
{
}

/// Replacing a value keeps its expiry; giving an entry an expiry keeps its value, and
/// gives none where there is no entry; removing an entry removes it. Each leaves the
/// other entries as they are.
pub proof fn law_entries_are_changed_one_by_one<V>(
    state: TimedState<V>,
    key: u128,
    other: u128,
    value: V,
    expires_at: u128,
    now: u128,
)
    requires
        state.entries.dom().contains(key),
        other != key,
    ensures
        ({
            let replaced = state.with_replaced(key, value);
            &&& replaced.entries[key].value() == value
            &&& replaced.live(key, now) == state.live(key, now)
            &&& replaced.entries[other] == state.entries[other]
            &&& replaced.live(other, now) == state.live(other, now)
        }),
        ({
            let given = state.with_expiry(key, expires_at);
            &&& given.entries[key].value() == state.entries[key].value()
            &&& given.live(key, now) <==> state.disabled || now < expires_at
            &&& given.entries[other] == state.entries[other]
            &&& given.live(other, now) == state.live(other, now)
        }),
        ({
            let without = state.without(key);
            &&& !without.live(key, now)
            &&& without.entries[other] == state.entries[other]
            &&& without.live(other, now) == state.live(other, now)
        }),
        !state.entries.dom().contains(other) ==> state.with_expiry(other, expires_at) == state,
        state.with_constant(key, value).live(other, now) == state.live(other, now),
        state.with_expirable(key, value, expires_at).live(other, now) == state.live(other, now),
{
}

/// An entry counts as expired exactly when expiration is on and its time has come; it
/// is live exactly when it is there and does not count as expired. A new map is empty,
/// and its entries expire.
pub proof fn law_expired_or_live<V>(state: TimedState<V>, key: u128, now: u128)
    ensures
        state.live(key, now) || state.expired(key, now) <==> state.entries.dom().contains(key),
        !(state.live(key, now) && state.expired(key, now)),
        state.expired(key, now) <==> state.entries.dom().contains(key) && !state.disabled
            && (state.entries[key] matches ExpiryValue::Expirable { expires_at, .. } && now
            >= expires_at),
        !TimedState::<V>::fresh().entries.dom().contains(key),
        !TimedState::<V>::fresh().disabled,
{
}

/// A deadline lies its timeout behind the moment it is counted from.
pub proof fn law_deadline_is_the_timeout_later(now: u128, timeout: TimeSpan)
    ensures
        deadline(now, timeout) - now == timeout.secs * 1_000_000_000 + timeout.nanos,
        entry_with(now, None).value() == now,
        !entry_with(now, None).expired_at(now),
        entry_with(now, Some(now)).expired_at(now),
        entry_with(now, Some(now)).value() == now,
{
}

} // verus!
