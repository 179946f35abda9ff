//! A small keyed table: at most one value per key.

use vstd::prelude::*;
use crate::key::CacheKey;

verus! {

/// A map from keys to values, held as a list of slots in which no key occurs twice.
pub struct Table<K: CacheKey, V> {
    slots: Vec<(K, V)>,
}

impl<K: CacheKey, V> View for Table<K, V> {
    type V = Map<K::V, V>;

    closed spec fn view(&self) -> Map<K::V, V> {
        Map::new(
            |k: K::V| exists|i: int| 0 <= i < self.slots@.len() && (#[trigger] self.slots@[i]).0@ == k,
            |k: K::V| self.slots@[self.slot_of(k)].1,
        )
    }
}

impl<K: CacheKey, V> Table<K, V> {
    #[verifier::type_invariant]
    closed spec fn keys_are_distinct(&self) -> bool {
        forall|i: int, j: int|
            0 <= i < j < self.slots@.len() ==> (#[trigger] self.slots@[i]).0@ != (#[trigger] self.slots@[j]).0@
    }

    /// Some slot that holds `k`, where there is one.
    closed spec fn slot_of(&self, k: K::V) -> int {
        choose|i: int| 0 <= i < self.slots@.len() && (#[trigger] self.slots@[i]).0@ == k
    }

    /// A table without entries.
    pub fn new() -> (table: Self)
        ensures
            table@ == Map::<K::V, V>::empty(),
    {
        let table = Table { slots: Vec::new() };
        assert(table@ =~= Map::<K::V, V>::empty());
        table
    }

    /// The number of entries.
    pub fn len(&self) -> (n: usize)
        ensures
            n == self@.len(),
            self@.dom().finite(),
    {
        proof {
            use_type_invariant(self);
            self.lemma_dom_size();
        }
        self.slots.len()
    }

    /// The domain of the view is the set of the slots' keys, one element per slot.
    proof fn lemma_dom_size(&self)
        requires
            self.keys_are_distinct(),
        ensures
            self@.dom().finite(),
            self@.dom().len() == self.slots@.len(),
    {
        Self::lemma_keys_of(self.slots@);
        assert(self@.dom() =~= Self::keys_of(self.slots@));
    }

    /// The keys of the first slots of a list.
    closed spec fn keys_of(slots: Seq<(K, V)>) -> Set<K::V>
        decreases slots.len(),
    {
        if slots.len() == 0 {
            Set::empty()
        } else {
            Self::keys_of(slots.drop_last()).insert(slots.last().0@)
        }
    }

    proof fn lemma_keys_of(slots: Seq<(K, V)>)
        requires
            forall|i: int, j: int|
                0 <= i < j < slots.len() ==> (#[trigger] slots[i]).0@ != (#[trigger] slots[j]).0@,
        ensures
            Self::keys_of(slots).finite(),
            Self::keys_of(slots).len() == slots.len(),
            forall|k: K::V|
                Self::keys_of(slots).contains(k) <==> exists|i: int|
                    0 <= i < slots.len() && (#[trigger] slots[i]).0@ == k,
        decreases slots.len(),
    {
        if slots.len() > 0 {
            let front = slots.drop_last();
            Self::lemma_keys_of(front);
            assert forall|k: K::V|
                Self::keys_of(slots).contains(k) <==> exists|i: int|
                    0 <= i < slots.len() && (#[trigger] slots[i]).0@ == k by {
                if Self::keys_of(front).contains(k) {
                    let i = choose|i: int| 0 <= i < front.len() && (#[trigger] front[i]).0@ == k;
                    assert(slots[i].0@ == k);
                } else if slots.last().0@ == k {
                    assert(slots[slots.len() - 1].0@ == k);
                }
                if exists|i: int| 0 <= i < slots.len() && (#[trigger] slots[i]).0@ == k {
                    let i = choose|i: int| 0 <= i < slots.len() && (#[trigger] slots[i]).0@ == k;
                    if i < front.len() {
                        assert(front[i].0@ == k);
                    }
                }
            }
            assert(!Self::keys_of(front).contains(slots.last().0@)) by {
                if Self::keys_of(front).contains(slots.last().0@) {
                    let i = choose|i: int|
                        0 <= i < front.len() && (#[trigger] front[i]).0@ == slots.last().0@;
                    assert(slots[i].0@ == slots[slots.len() - 1].0@);
                }
            }
        }
    }

    /// The slot that holds `key`, where there is one.
    fn position(&self, key: &K) -> (at: Option<usize>)
        ensures
            match at {
                Some(i) => i < self.slots@.len() && self.slots@[i as int].0@ == key@,
                None => forall|i: int| 0 <= i < self.slots@.len() ==> (#[trigger] self.slots@[i]).0@ != key@,
            },
    {
        let mut i: usize = 0;
        while i < self.slots.len()
            invariant
                i <= self.slots@.len(),
                forall|j: int| 0 <= j < i ==> (#[trigger] self.slots@[j]).0@ != key@,
            decreases self.slots@.len() - i,
        {
            if self.slots[i].0.same(key) {
                return Some(i);
            }
            i += 1;
        }
        None
    }

    /// The value stored under `key`, where there is one.
    pub fn get(&self, key: &K) -> (found: Option<&V>)
        ensures
            match found {
                Some(value) => self@.contains_key(key@) && *value == self@[key@],
                None => !self@.contains_key(key@),
            },
    {
        proof {
            use_type_invariant(self);
        }
        match self.position(key) {
            Some(i) => {
                assert(self.slots@[self.slot_of(key@)].0@ == key@);
                Some(&self.slots[i].1)
            },
            None => None,
        }
    }

    /// The entries as a list: one pair per key of the table, each key with its value.
    pub fn into_pairs(self) -> (pairs: Vec<(K, V)>)
        ensures
            pairs@.len() == self@.len(),
            self@.dom().finite(),
            forall|i: int|
                0 <= i < pairs@.len() ==> self@.contains_key((#[trigger] pairs@[i]).0@) && self@[pairs@[i].0@]
                    == pairs@[i].1,
            forall|i: int, j: int|
                0 <= i < j < pairs@.len() ==> (#[trigger] pairs@[i]).0@ != (#[trigger] pairs@[j]).0@,
    {
        proof {
            use_type_invariant(&self);
            self.lemma_dom_size();
            assert forall|i: int| 0 <= i < self.slots@.len() implies self@.contains_key(
                (#[trigger] self.slots@[i]).0@,
            ) && self@[self.slots@[i].0@] == self.slots@[i].1 by {
                let k = self.slots@[i].0@;
                assert(self.slots@[self.slot_of(k)].0@ == k);
            }
        }
        self.slots
    }

    /// Stores `value` under `key`, in place of what was stored there before.
    pub fn insert(&mut self, key: K, value: V)
        ensures
            final(self)@ == old(self)@.insert(key@, value),
    {
        proof {
            use_type_invariant(&*self);
        }
        let ghost before = self.slots@;
        let ghost k = key@;
        let at = self.position(&key);
        let mut slots = Vec::new();
        core::mem::swap(&mut self.slots, &mut slots);
        match at {
            Some(i) => {
                slots.set(i, (key, value));
                assert(slots@[i as int].0@ == k);
                assert forall|a: int, b: int| 0 <= a < b < slots@.len() implies (#[trigger] slots@[a]).0@ != (
                #[trigger] slots@[b]).0@ by {
                    assert(before[a].0@ != before[b].0@);
                }
            },
            None => {
                slots.push((key, value));
                assert(slots@[before.len() as int].0@ == k);
                assert forall|a: int, b: int| 0 <= a < b < slots@.len() implies (#[trigger] slots@[a]).0@ != (
                #[trigger] slots@[b]).0@ by {
                    if b < before.len() {
                        assert(before[a].0@ != before[b].0@);
                    } else {
                        assert(before[a].0@ != k);
                    }
                }
            },
        }
        self.slots = slots;
        proof {
            self.lemma_insert(*old(self), k, value);
        }
    }

    /// A table whose slots are those of `before`, but for one slot that now holds
    /// `value` under `k`, views as `before` with that entry inserted.
    proof fn lemma_insert(&self, before: Self, k: K::V, value: V)
        requires
            self.keys_are_distinct(),
            before.keys_are_distinct(),
            exists|at: int|
                0 <= at < self.slots@.len() && (#[trigger] self.slots@[at]).0@ == k && self.slots@[at].1 == value,
            forall|i: int|
                0 <= i < before.slots@.len() && (#[trigger] before.slots@[i]).0@ != k ==> i < self.slots@.len()
                    && self.slots@[i] == before.slots@[i],
            forall|i: int|
                0 <= i < self.slots@.len() && (#[trigger] self.slots@[i]).0@ != k ==> i < before.slots@.len()
                    && self.slots@[i] == before.slots@[i],
        ensures
            self@ == before@.insert(k, value),
    {
        let target = before@.insert(k, value);
        assert forall|q: K::V| self@.dom().contains(q) <==> target.dom().contains(q) by {
            if self@.dom().contains(q) && q != k {
                let i = self.slot_of(q);
                assert(before.slots@[i].0@ == q);
            }
            if before@.dom().contains(q) && q != k {
                let i = before.slot_of(q);
                assert(self.slots@[i].0@ == q);
            }
        }
        assert forall|q: K::V| self@.dom().contains(q) implies self@[q] == target[q] by {
            let i = self.slot_of(q);
            if q == k {
                let at = choose|at: int|
                    0 <= at < self.slots@.len() && (#[trigger] self.slots@[at]).0@ == k && self.slots@[at].1
                        == value;
                assert(i == at);
            } else {
                assert(before.slots@[i].0@ == q);
                let j = before.slot_of(q);
                assert(i == j);
            }
        }
        assert(self@ =~= target);
    }
}

} // verus!
