//! The join of a fan-out: many keys are resolved, every outcome is awaited, and the
//! batch yields either the whole mapping or the first failure met.

use vstd::prelude::*;
use crate::cache::{after_get, fresh_in, handed_back, Cache, CacheEntry, Ticks, Timestamp};
use crate::key::CacheKey;
use crate::table::Table;

verus! {

/// The error of the first failed outcome, in the order in which the outcomes
/// completed; `None` where every outcome succeeded.
pub open spec fn first_failure<Q, V, E>(outcomes: Seq<(Q, Result<V, E>)>) -> Option<E>
    decreases outcomes.len(),
{
    if outcomes.len() == 0 {
        None
    } else {
        match first_failure(outcomes.drop_last()) {
            Some(error) => Some(error),
            None => match outcomes.last().1 {
                Ok(_) => None,
                Err(error) => Some(error),
            },
        }
    }
}

/// The mapping of every key whose outcome succeeded to its value; where a key
/// completed more than once, the later value stands.
pub open spec fn collected<Q, V, E>(outcomes: Seq<(Q, Result<V, E>)>) -> Map<Q, V>
    decreases outcomes.len(),
{
    if outcomes.len() == 0 {
        Map::empty()
    } else {
        match outcomes.last().1 {
            Ok(value) => collected(outcomes.drop_last()).insert(outcomes.last().0, value),
            Err(_) => collected(outcomes.drop_last()),
        }
    }
}

/// What a batch yields once all its outcomes are in: the first failure if there is
/// one, else the full mapping. There is nothing in between.
pub open spec fn joined<Q, V, E>(outcomes: Seq<(Q, Result<V, E>)>) -> Result<Map<Q, V>, E> {
    match first_failure(outcomes) {
        Some(error) => Err(error),
        None => Ok(collected(outcomes)),
    }
}

/// A batch succeeds exactly when every outcome did, and then maps every key of the
/// batch, each to a value that an outcome for that key brought. A batch that fails
/// yields the error of the earliest failed outcome, and no mapping at all.
pub proof fn lemma_join_is_all_or_nothing<Q, V, E>(outcomes: Seq<(Q, Result<V, E>)>)
    ensures
        joined(outcomes) is Ok <==> forall|i: int| 0 <= i < outcomes.len() ==> (#[trigger] outcomes[i]).1 is Ok,
        joined(outcomes) matches Ok(mapping) ==> {
            &&& forall|i: int| 0 <= i < outcomes.len() ==> mapping.contains_key((#[trigger] outcomes[i]).0)
            &&& forall|k: Q| #[trigger]
                mapping.contains_key(k) ==> exists|i: int|
                    0 <= i < outcomes.len() && (#[trigger] outcomes[i]).0 == k && outcomes[i].1 == Ok::<V, E>(
                        mapping[k],
                    )
        },
        joined(outcomes) matches Err(error) ==> exists|i: int|
            {
                &&& 0 <= i < outcomes.len()
                &&& (#[trigger] outcomes[i]).1 == Err::<V, E>(error)
                &&& forall|j: int| 0 <= j < i ==> (#[trigger] outcomes[j]).1 is Ok
            },
    decreases outcomes.len(),
{
    if outcomes.len() > 0 {
        let front = outcomes.drop_last();
        let last = outcomes.len() - 1;
        lemma_join_is_all_or_nothing(front);
        assert forall|i: int| 0 <= i < front.len() implies front[i] == outcomes[i] by {}
        match joined(front) {
            Ok(early) => {
                assert forall|j: int| 0 <= j < last implies (#[trigger] outcomes[j]).1 is Ok by {
                    assert(front[j].1 is Ok);
                }
                match outcomes[last].1 {
                    Ok(value) => {
                        let mapping = early.insert(outcomes[last].0, value);
                        assert(joined(outcomes) == Ok::<Map<Q, V>, E>(mapping));
                        assert forall|i: int| 0 <= i < outcomes.len() implies mapping.contains_key(
                            (#[trigger] outcomes[i]).0,
                        ) by {
                            if i < last {
                                assert(early.contains_key(front[i].0));
                            }
                        }
                        assert forall|k: Q| #[trigger] mapping.contains_key(k) implies exists|i: int|
                            0 <= i < outcomes.len() && (#[trigger] outcomes[i]).0 == k && outcomes[i].1 == Ok::<
                                V,
                                E,
                            >(mapping[k]) by {
                            if k == outcomes[last].0 {
                                assert(outcomes[last].0 == k);
                            } else {
                                assert(early.contains_key(k));
                                let i = choose|i: int|
                                    0 <= i < front.len() && (#[trigger] front[i]).0 == k && front[i].1 == Ok::<V, E>(
                                        early[k],
                                    );
                                assert(outcomes[i].0 == k);
                            }
                        }
                    },
                    Err(error) => {
                        assert(joined(outcomes) == Err::<Map<Q, V>, E>(error));
                        assert(outcomes[last].1 == Err::<V, E>(error));
                    },
                }
            },
            Err(error) => {
                let i = choose|i: int|
                    {
                        &&& 0 <= i < front.len()
                        &&& (#[trigger] front[i]).1 == Err::<V, E>(error)
                        &&& forall|j: int| 0 <= j < i ==> (#[trigger] front[j]).1 is Ok
                    };
                assert(outcomes[i].1 == Err::<V, E>(error));
                assert forall|j: int| 0 <= j < i implies (#[trigger] outcomes[j]).1 is Ok by {
                    assert(front[j].1 is Ok);
                }
            },
        }
    }
}

/// The outcomes with each key taken by its view.
pub open spec fn by_view<K: CacheKey, V, E>(outcomes: Seq<(K, Result<V, E>)>) -> Seq<(K::V, Result<V, E>)> {
    outcomes.map_values(|pair: (K, Result<V, E>)| (pair.0@, pair.1))
}

/// The state of one batch, as contracts see it.
#[verifier::reject_recursive_types(Q)]
pub ghost struct AggregateState<Q, V, E> {
    /// How many outcomes are still awaited.
    pub outstanding: nat,
    /// The values of the outcomes that succeeded so far.
    pub values: Map<Q, V>,
    /// The first failure met so far.
    pub failure: Option<E>,
}

impl<Q, V, E> AggregateState<Q, V, E> {
    /// The state after one more outcome has completed.
    pub open spec fn completed(self, k: Q, outcome: Result<V, E>) -> Self {
        AggregateState {
            outstanding: (self.outstanding - 1) as nat,
            values: match outcome {
                Ok(value) => self.values.insert(k, value),
                Err(_) => self.values,
            },
            failure: match self.failure {
                Some(error) => Some(error),
                None => match outcome {
                    Ok(_) => None,
                    Err(error) => Some(error),
                },
            },
        }
    }

    /// What the batch yields: the recorded failure, else the values.
    pub open spec fn yields(self) -> Result<Map<Q, V>, E> {
        match self.failure {
            Some(error) => Err(error),
            None => Ok(self.values),
        }
    }
}

/// One batch on its way from "n outcomes outstanding" to "done".
pub struct Aggregate<K: CacheKey, V, E> {
    outstanding: usize,
    values: Table<K, V>,
    failure: Option<E>,
}

impl<K: CacheKey, V, E> View for Aggregate<K, V, E> {
    type V = AggregateState<K::V, V, E>;

    closed spec fn view(&self) -> AggregateState<K::V, V, E> {
        AggregateState { outstanding: self.outstanding as nat, values: self.values@, failure: self.failure }
    }
}

impl<K: CacheKey, V, E> Aggregate<K, V, E> {
    /// A batch that awaits `n` outcomes.
    pub fn pending(n: usize) -> (batch: Self)
        ensures
            batch@ == (AggregateState::<K::V, V, E> { outstanding: n as nat, values: Map::empty(), failure: None }),
    {
        Aggregate { outstanding: n, values: Table::new(), failure: None }
    }

    /// How many outcomes are still awaited.
    pub fn outstanding(&self) -> (n: usize)
        ensures
            n == self@.outstanding,
    {
        self.outstanding
    }

    /// Whether every outcome is in.
    pub fn is_done(&self) -> (done: bool)
        ensures
            done == (self@.outstanding == 0),
    {
        self.outstanding == 0
    }

    /// Records that the operation for `key` completed with `outcome`.
    pub fn complete(&mut self, key: K, outcome: Result<V, E>)
        requires
            old(self)@.outstanding > 0,
        ensures
            final(self)@ == old(self)@.completed(key@, outcome),
    {
        self.outstanding = self.outstanding - 1;
        match outcome {
            Ok(value) => {
                self.values.insert(key, value);
            },
            Err(error) => {
                if self.failure.is_none() {
                    self.failure = Some(error);
                }
            },
        }
    }

    /// Ends a batch whose outcomes are all in.
    pub fn finish(self) -> (result: Result<Table<K, V>, E>)
        requires
            self@.outstanding == 0,
        ensures
            match result {
                Ok(table) => self@.yields() == Ok::<Map<K::V, V>, E>(table@),
                Err(error) => self@.yields() == Err::<Map<K::V, V>, E>(error),
            },
    {
        match self.failure {
            Some(error) => Err(error),
            None => Ok(self.values),
        }
    }
}

/// Joins the outcomes of a batch, given in the order in which they completed.
pub fn join<K: CacheKey, V, E>(outcomes: Vec<(K, Result<V, E>)>) -> (result: Result<Table<K, V>, E>)
    ensures
        match result {
            Ok(table) => joined(by_view(outcomes@)) == Ok::<Map<K::V, V>, E>(table@),
            Err(error) => joined(by_view(outcomes@)) == Err::<Map<K::V, V>, E>(error),
        },
{
    let ghost all = by_view(outcomes@);
    let n = outcomes.len();
    let mut batch: Aggregate<K, V, E> = Aggregate::pending(n);
    for pair in it: outcomes.into_iter()
        invariant
            it.seq() == outcomes@,
            n == outcomes@.len(),
            all == by_view(outcomes@),
            batch@.outstanding == n - it.index(),
            batch@.values == collected(all.take(it.index() as int)),
            batch@.failure == first_failure(all.take(it.index() as int)),
    {
        proof {
            let i = it.index() as int;
            assert(all.take(i + 1).drop_last() == all.take(i));
            assert(all.take(i + 1).last() == (pair.0@, pair.1));
        }
        batch.complete(pair.0, pair.1);
    }
    assert(all.take(n as int) == all);
    batch.finish()
}

/// The keys, each taken by its view.
pub open spec fn views<K: CacheKey>(keys: Seq<K>) -> Seq<K::V> {
    keys.map_values(|key: K| key@)
}

/// The store after one `get` per key, in the order of `keys` and all at `now`, where
/// the fetch for the key at `i`, if it comes to one, returns `fetched[i]`.
pub open spec fn swept<Q, V, E>(
    store: Map<Q, CacheEntry<V>>,
    lifetime: Ticks,
    keys: Seq<Q>,
    now: Timestamp,
    fetched: Seq<Result<V, E>>,
) -> Map<Q, CacheEntry<V>>
    decreases keys.len(),
{
    if keys.len() == 0 {
        store
    } else {
        after_get(
            swept(store, lifetime, keys.drop_last(), now, fetched.drop_last()),
            lifetime,
            keys.last(),
            now,
            fetched.last(),
        )
    }
}

/// Whether `outcome` is what a `get` of `key` at `now` hands back in `store`: a copy
/// of the fresh entry, or else what the refill hands back for `fetched`, which then is
/// what `fetch_for` returned for the key.
pub open spec fn resolved_by<K: CacheKey, V: Clone, E, F: Fn(&K) -> Result<V, E>>(
    store: Map<K::V, CacheEntry<V>>,
    lifetime: Ticks,
    key: K,
    now: Timestamp,
    fetch_for: F,
    fetched: Result<V, E>,
    outcome: Result<V, E>,
) -> bool {
    if fresh_in(store, lifetime, key@, now) {
        outcome matches Ok(copy) && cloned(store[key@].value, copy)
    } else {
        call_ensures(fetch_for, (&key,), fetched) && handed_back(fetched, outcome)
    }
}

/// Resolves every key of `keys` through `cache` at `now` and joins the outcomes.
/// Each key is asked for as by [`Cache::get`], in the order of `keys`, with
/// `fetch_for` called for it only where its entry is not fresh. No key is skipped
/// after a failure: every refill that is due runs and every success is kept in the
/// cache. The batch then yields the full mapping, or the first failure alone.
pub fn resolve<K: CacheKey, V: Clone, E, F: Fn(&K) -> Result<V, E>>(
    cache: &mut Cache<K, V>,
    keys: &Vec<K>,
    now: Timestamp,
    fetch_for: &F,
) -> (result: Result<Table<K, V>, E>)
    requires
        forall|i: int| 0 <= i < keys@.len() ==> call_requires(*fetch_for, (&#[trigger] keys@[i],)),
    ensures
        final(cache).spec_lifetime() == old(cache).spec_lifetime(),
        exists|fetched: Seq<Result<V, E>>, outcomes: Seq<(K::V, Result<V, E>)>|
            {
                &&& fetched.len() == keys@.len()
                &&& outcomes.len() == keys@.len()
                &&& forall|i: int|
                    0 <= i < keys@.len() ==> {
                        &&& (#[trigger] outcomes[i]).0 == keys@[i]@
                        &&& resolved_by(
                            swept(
                                old(cache)@,
                                old(cache).spec_lifetime(),
                                views(keys@).take(i),
                                now,
                                fetched.take(i),
                            ),
                            old(cache).spec_lifetime(),
                            keys@[i],
                            now,
                            *fetch_for,
                            fetched[i],
                            outcomes[i].1,
                        )
                    }
                &&& final(cache)@ == #[trigger] swept(
                    old(cache)@,
                    old(cache).spec_lifetime(),
                    views(keys@),
                    now,
                    fetched,
                )
                &&& match result {
                    Ok(table) => #[trigger] joined(outcomes) == Ok::<Map<K::V, V>, E>(table@),
                    Err(error) => joined(outcomes) == Err::<Map<K::V, V>, E>(error),
                }
            },
{
    let ghost store0 = cache@;
    let ghost lifetime = cache.spec_lifetime();
    let ghost kv = views(keys@);
    let ghost mut fetched: Seq<Result<V, E>> = Seq::empty();
    let ghost mut outcomes: Seq<(K::V, Result<V, E>)> = Seq::empty();
    let mut done: Vec<(K, Result<V, E>)> = Vec::new();
    let mut i: usize = 0;
    assert(kv.take(0) =~= Seq::<K::V>::empty());
    while i < keys.len()
        invariant
            i <= keys@.len(),
            kv == views(keys@),
            lifetime == cache.spec_lifetime(),
            forall|j: int| 0 <= j < keys@.len() ==> call_requires(*fetch_for, (&#[trigger] keys@[j],)),
            fetched.len() == i,
            outcomes.len() == i,
            done@.len() == i,
            by_view(done@) == outcomes,
            cache@ == swept(store0, lifetime, kv.take(i as int), now, fetched),
            forall|j: int|
                0 <= j < i ==> {
                    &&& (#[trigger] outcomes[j]).0 == keys@[j]@
                    &&& resolved_by(
                        swept(store0, lifetime, kv.take(j), now, fetched.take(j)),
                        lifetime,
                        keys@[j],
                        now,
                        *fetch_for,
                        fetched[j],
                        outcomes[j].1,
                    )
                },
        decreases keys@.len() - i,
    {
        let ghost before = cache@;
        let ghost fetched_before = fetched;
        let ghost outcomes_before = outcomes;
        let key = &keys[i];
        let outcome: Result<V, E>;
        let hit = match cache.lookup(key, now) {
            Some(value) => Some(value.clone()),
            None => None,
        };
        match hit {
            Some(copy) => {
                outcome = Ok(copy);
                proof {
                    fetched = fetched.push(outcome);
                }
            },
            None => {
                let answer = fetch_for(key);
                proof {
                    fetched = fetched.push(answer);
                }
                outcome = cache.settle(key.duplicate(), now, answer);
            },
        }
        proof {
            outcomes = outcomes.push((key@, outcome));
            let n = i as int;
            assert(kv.take(n + 1).drop_last() =~= kv.take(n));
            assert(kv.take(n + 1).last() == key@);
            assert(fetched.drop_last() =~= fetched_before);
            assert(fetched.take(n) =~= fetched_before);
            assert(fetched_before.take(n) =~= fetched_before);
            assert forall|j: int| 0 <= j < n + 1 implies {
                &&& (#[trigger] outcomes[j]).0 == keys@[j]@
                &&& resolved_by(
                    swept(store0, lifetime, kv.take(j), now, fetched.take(j)),
                    lifetime,
                    keys@[j],
                    now,
                    *fetch_for,
                    fetched[j],
                    outcomes[j].1,
                )
            } by {
                if j < n {
                    assert(fetched.take(j) =~= fetched_before.take(j));
                    assert(outcomes[j] == outcomes_before[j]);
                    assert(fetched[j] == fetched_before[j]);
                }
            }
            assert(by_view(done@.push((*key, outcome))) =~= outcomes);
        }
        done.push((key.duplicate(), outcome));
        proof {
            assert(by_view(done@) =~= outcomes);
        }
        i += 1;
    }
    proof {
        assert(kv.take(keys@.len() as int) =~= kv);
    }
    join(done)
}

} // verus!
