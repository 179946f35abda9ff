//! A keyed store whose entries go stale a fixed time after they were written.
//!
//! The cache never reads a clock and never fetches by itself: the caller hands in the
//! time, and either the fetched outcome or the function that fetches. Every operation
//! that may write takes the cache by `&mut`, so a refill, fetch included, runs with
//! nothing else at work on the same cache.

use vstd::prelude::*;
use crate::key::CacheKey;
use crate::table::Table;

verus! {

/// A point in time: ticks of a clock that the caller reads, counted from an epoch
/// of the caller's choice.
pub type Timestamp = u64;

/// A span of time, in the ticks that [`Timestamp`] counts.
pub type Ticks = u64;

/// One cached value and the moment it was written.
#[derive(Debug, Clone)]
pub struct CacheEntry<V> {
    pub value: V,
    pub written_at: Timestamp,
}

impl<V> CacheEntry<V> {
    /// The first moment at which the entry is stale.
    pub open spec fn expiry(&self, lifetime: Ticks) -> int {
        self.written_at + lifetime
    }

    /// An entry is stale from its expiry on; before that, and whenever the clock
    /// reads less than the write stamp, it is fresh.
    pub open spec fn is_expired(&self, lifetime: Ticks, now: Timestamp) -> bool {
        now >= self.expiry(lifetime)
    }

    /// Whether the entry is stale at `now` in a cache that keeps entries for `lifetime`.
    pub fn expired(&self, lifetime: Ticks, now: Timestamp) -> (stale: bool)
        ensures
            stale == self.is_expired(lifetime, now),
    {
        now >= self.written_at && now - self.written_at >= lifetime
    }
}

/// Whether `store` holds an entry for `k` that is not stale at `now`.
pub open spec fn fresh_in<Q, V>(store: Map<Q, CacheEntry<V>>, lifetime: Ticks, k: Q, now: Timestamp) -> bool {
    store.contains_key(k) && !store[k].is_expired(lifetime, now)
}

/// When the entry for `k` was last written, if it ever was.
pub open spec fn last_modified_in<Q, V>(store: Map<Q, CacheEntry<V>>, k: Q) -> Option<Timestamp> {
    if store.contains_key(k) {
        Some(store[k].written_at)
    } else {
        None
    }
}

/// The store after a refill of `k` at `now` whose fetch came back as `fetched`: a
/// success is written with the stamp `now`, a failure writes nothing.
pub open spec fn refilled<Q, V, E>(
    store: Map<Q, CacheEntry<V>>,
    k: Q,
    now: Timestamp,
    fetched: Result<V, E>,
) -> Map<Q, CacheEntry<V>> {
    match fetched {
        Ok(value) => store.insert(k, CacheEntry { value, written_at: now }),
        Err(_) => store,
    }
}

/// The store after a `get` of `k` at `now`: untouched where the entry is fresh, else
/// refilled from what the fetch would return.
pub open spec fn after_get<Q, V, E>(
    store: Map<Q, CacheEntry<V>>,
    lifetime: Ticks,
    k: Q,
    now: Timestamp,
    fetched: Result<V, E>,
) -> Map<Q, CacheEntry<V>> {
    if fresh_in(store, lifetime, k, now) {
        store
    } else {
        refilled(store, k, now, fetched)
    }
}

/// Whether `outcome` is what a refill hands to its caller for `fetched`: a copy of the
/// fetched value, or the fetch's own error.
pub open spec fn handed_back<V: Clone, E>(fetched: Result<V, E>, outcome: Result<V, E>) -> bool {
    match fetched {
        Ok(value) => outcome matches Ok(copy) && cloned(value, copy),
        Err(error) => outcome == Err::<V, E>(error),
    }
}

/// A value written at `t0` is fresh at every `now` in `[t0, t0 + lifetime)`: a `get`
/// there leaves the store as it is, whatever a fetch would have returned, and the
/// entry still holds the value as written. At every `now` from `t0 + lifetime` on the
/// entry is stale, and a `get` refills it from the fetch.
pub proof fn lemma_fresh_exactly_for_lifetime<Q, V, E>(
    store: Map<Q, CacheEntry<V>>,
    lifetime: Ticks,
    k: Q,
    value: V,
    t0: Timestamp,
    now: Timestamp,
    fetched: Result<V, E>,
)
    ensures
        ({
            let written = store.insert(k, CacheEntry { value, written_at: t0 });
            &&& t0 <= now < t0 + lifetime ==> {
                &&& fresh_in(written, lifetime, k, now)
                &&& written[k].value == value
                &&& after_get(written, lifetime, k, now, fetched) == written
            }
            &&& now >= t0 + lifetime ==> {
                &&& !fresh_in(written, lifetime, k, now)
                &&& after_get(written, lifetime, k, now, fetched) == refilled(written, k, now, fetched)
            }
        }),
{
}

/// What a `get` of `k` at `now` does to the write stamp of any key `q`: it becomes
/// `now` where `q` is `k`, the entry was not fresh and the fetch succeeded, and stays
/// as it was otherwise. So a key has no stamp until a refill of it has succeeded, and
/// a stamp, once there, is never lost and never decreases.
pub proof fn lemma_last_modified_after_get<Q, V, E>(
    store: Map<Q, CacheEntry<V>>,
    lifetime: Ticks,
    k: Q,
    now: Timestamp,
    fetched: Result<V, E>,
    q: Q,
)
    ensures
        ({
            let before = last_modified_in(store, q);
            let after = last_modified_in(after_get(store, lifetime, k, now, fetched), q);
            let rewritten = q == k && !fresh_in(store, lifetime, k, now) && fetched is Ok;
            &&& rewritten ==> after == Some(now)
            &&& !rewritten ==> after == before
            &&& before matches Some(earlier) ==> after matches Some(later) && later >= earlier
        }),
{
}

/// Two `get`s of one key at one moment, one after the other: where the first has
/// succeeded and entries live for any time at all, the second finds the entry fresh
/// and leaves the store alone, whatever its fetch would have returned. Refills that
/// are run one at a time thus fetch once for a moment, not once per caller.
pub proof fn lemma_next_get_at_once_is_a_hit<Q, V, E>(
    store: Map<Q, CacheEntry<V>>,
    lifetime: Ticks,
    k: Q,
    now: Timestamp,
    first: Result<V, E>,
    second: Result<V, E>,
)
    requires
        lifetime > 0,
        first is Ok,
    ensures
        ({
            let after = after_get(store, lifetime, k, now, first);
            &&& fresh_in(after, lifetime, k, now)
            &&& after_get(after, lifetime, k, now, second) == after
        }),
{
}

/// A store of values by key in which every entry lives for the same fixed time.
pub struct Cache<K: CacheKey, V> {
    store: Table<K, CacheEntry<V>>,
    lifetime: Ticks,
}

impl<K: CacheKey, V> View for Cache<K, V> {
    type V = Map<K::V, CacheEntry<V>>;

    closed spec fn view(&self) -> Map<K::V, CacheEntry<V>> {
        self.store@
    }
}

impl<K: CacheKey, V> Cache<K, V> {
    /// How long an entry stays fresh; fixed when the cache is made.
    pub closed spec fn spec_lifetime(&self) -> Ticks {
        self.lifetime
    }

    /// Whether the cache would answer a `get` of `k` at `now` from its store.
    pub open spec fn holds_fresh(&self, k: K::V, now: Timestamp) -> bool {
        fresh_in(self@, self.spec_lifetime(), k, now)
    }

    /// An empty cache whose entries will live for `lifetime` ticks.
    pub fn new(lifetime: Ticks) -> (cache: Self)
        ensures
            cache@ == Map::<K::V, CacheEntry<V>>::empty(),
            cache.spec_lifetime() == lifetime,
    {
        Cache { store: Table::new(), lifetime }
    }

    /// How long an entry stays fresh.
    #[verifier::when_used_as_spec(spec_lifetime)]
    pub fn lifetime(&self) -> (lifetime: Ticks)
        ensures
            lifetime == self.spec_lifetime(),
    {
        self.lifetime
    }

    /// The value under `key` if the store holds one that is fresh at `now`. Reads only.
    pub fn lookup(&self, key: &K, now: Timestamp) -> (hit: Option<&V>)
        ensures
            match hit {
                Some(value) => self.holds_fresh(key@, now) && *value == self@[key@].value,
                None => !self.holds_fresh(key@, now),
            },
    {
        match self.store.get(key) {
            Some(entry) => {
                if entry.expired(self.lifetime, now) {
                    None
                } else {
                    Some(&entry.value)
                }
            },
            None => None,
        }
    }

    /// Ends a refill of `key`: a fetched value is written with the stamp `now` and a
    /// copy of it handed back; a failed fetch writes nothing and its error is handed
    /// back as it came.
    pub fn settle<E>(&mut self, key: K, now: Timestamp, fetched: Result<V, E>) -> (outcome: Result<V, E>) where
        V: Clone,

        ensures
            final(self)@ == refilled(old(self)@, key@, now, fetched),
            final(self).spec_lifetime() == old(self).spec_lifetime(),
            handed_back(fetched, outcome),
    {
        match fetched {
            Ok(value) => {
                let copy = value.clone();
                self.store.insert(key, CacheEntry { value, written_at: now });
                Ok(copy)
            },
            Err(error) => Err(error),
        }
    }

    /// The value for `key` at `now`. A fresh entry is answered from the store and
    /// `fetch` is not called, so it need not even be callable. Otherwise `fetch` runs
    /// once and the refill is settled with what it returned.
    pub fn get<E, F>(&mut self, key: K, now: Timestamp, fetch: F) -> (outcome: Result<V, E>) where
        V: Clone,
        F: FnOnce() -> Result<V, E>,

        requires
            !old(self).holds_fresh(key@, now) ==> call_requires(fetch, ()),
        ensures
            final(self).spec_lifetime() == old(self).spec_lifetime(),
            old(self).holds_fresh(key@, now) ==> {
                &&& final(self)@ == old(self)@
                &&& outcome matches Ok(copy) && cloned(old(self)@[key@].value, copy)
            },
            !old(self).holds_fresh(key@, now) ==> exists|fetched: Result<V, E>|
                {
                    &&& #[trigger] call_ensures(fetch, (), fetched)
                    &&& final(self)@ == refilled(old(self)@, key@, now, fetched)
                    &&& handed_back(fetched, outcome)
                },
    {
        match self.lookup(&key, now) {
            Some(value) => {
                return Ok(value.clone());
            },
            None => {},
        }
        let fetched = fetch();
        self.settle(key, now, fetched)
    }

    /// When the entry for `key` was last written, stale or not; `None` if it never
    /// was. Reads only.
    pub fn get_last_modified_time(&self, key: &K) -> (stamp: Option<Timestamp>)
        ensures
            stamp == last_modified_in(self@, key@),
    {
        match self.store.get(key) {
            Some(entry) => Some(entry.written_at),
            None => None,
        }
    }
}

} // verus!
