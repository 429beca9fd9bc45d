//! A small association map keyed by content digests.
//!
//! The orchestrator's active-transfer table and the store tables are maps
//! from a 32-byte content digest to a value. This module holds them as a
//! vector of entries with pairwise-distinct keys, viewed as a mathematical
//! `Map` from the digest bytes to the value.

use vstd::prelude::*;

verus! {

/// The mathematical map described by a sequence of key/value entries; a
/// later entry with the same key would win, though well-formed maps never
/// hold two entries with one key.
pub open spec fn map_of<V>(entries: Seq<([u8; 32], V)>) -> Map<Seq<u8>, V>
    decreases entries.len(),
{
    if entries.len() == 0 {
        Map::empty()
    } else {
        map_of(entries.drop_last()).insert(entries.last().0@, entries.last().1)
    }
}

/// No two entries carry the same key.
pub open spec fn distinct_keys<V>(entries: Seq<([u8; 32], V)>) -> bool {
    forall|i: int, j: int|
        0 <= i < j < entries.len() ==> (#[trigger] entries[i]).0@ != (#[trigger] entries[j]).0@
}

/// A key is in the map exactly when some entry carries it.
pub proof fn lemma_map_of_contains<V>(entries: Seq<([u8; 32], V)>, k: Seq<u8>)
    ensures
        map_of(entries).contains_key(k) <==> (exists|i: int|
            0 <= i < entries.len() && (#[trigger] entries[i]).0@ == k),
    decreases entries.len(),
{
    if entries.len() > 0 {
        lemma_map_of_contains(entries.drop_last(), k);
        if entries.last().0@ == k {
            assert(entries[entries.len() - 1].0@ == k);
        } else if map_of(entries).contains_key(k) {
            let i = choose|i: int|
                0 <= i < entries.drop_last().len() && (#[trigger] entries.drop_last()[i]).0@ == k;
            assert(entries[i].0@ == k);
        } else {
            assert forall|i: int|
                0 <= i < entries.len() && (#[trigger] entries[i]).0@ == k implies false by {
                assert(i < entries.len() - 1);
                assert(entries.drop_last()[i].0@ == k);
            }
        }
    }
}

/// With distinct keys, each entry's key maps to that entry's value.
pub proof fn lemma_map_of_get<V>(entries: Seq<([u8; 32], V)>, i: int)
    requires
        distinct_keys(entries),
        0 <= i < entries.len(),
    ensures
        map_of(entries).contains_key(entries[i].0@),
        map_of(entries)[entries[i].0@] == entries[i].1,
    decreases entries.len(),
{
    lemma_map_of_contains(entries, entries[i].0@);
    if i < entries.len() - 1 {
        assert(entries.drop_last()[i] == entries[i]);
        assert(distinct_keys(entries.drop_last())) by {
            assert forall|a: int, b: int|
                0 <= a < b < entries.drop_last().len() implies (#[trigger] entries.drop_last()[a]).0@
                != (#[trigger] entries.drop_last()[b]).0@ by {
                assert(entries[a].0@ != entries[b].0@);
            }
        }
        lemma_map_of_get(entries.drop_last(), i);
        assert(entries[i].0@ != entries.last().0@);
    }
}

/// Compares two digests byte for byte.
pub fn keys_eq(a: &[u8; 32], b: &[u8; 32]) -> (r: bool)
    ensures
        r == (a@ == b@),
{
    let mut i: usize = 0;
    while i < 32
        invariant
            i <= 32,
            forall|j: int| 0 <= j < i ==> a@[j] == b@[j],
        decreases 32 - i,
    {
        if a[i] != b[i] {
            assert(a@[i as int] != b@[i as int]);
            return false;
        }
        i = i + 1;
    }
    assert(a@ =~= b@);
    true
}

/// A map from 32-byte content digests to values, holding each key at most
/// once.
pub struct IdMap<V> {
    pub entries: Vec<([u8; 32], V)>,
}

impl<V> View for IdMap<V> {
    type V = Map<Seq<u8>, V>;

    open spec fn view(&self) -> Map<Seq<u8>, V> {
        map_of(self.entries@)
    }
}

impl<V> IdMap<V> {
    /// Keys are pairwise distinct.
    pub open spec fn wf(&self) -> bool {
        distinct_keys(self.entries@)
    }

    /// An empty map.
    pub fn new() -> (r: IdMap<V>)
        ensures
            r@ == Map::<Seq<u8>, V>::empty(),
            r.wf(),
            r.entries@.len() == 0,
    {
        IdMap { entries: Vec::new() }
    }

    /// How many keys the map holds.
    pub fn len(&self) -> (r: usize)
        ensures
            r == self.entries@.len(),
    {
        self.entries.len()
    }

    fn index_of(&self, key: &[u8; 32]) -> (r: Option<usize>)
        ensures
            match r {
                Some(i) => 0 <= i < self.entries@.len() && self.entries@[i as int].0@ == key@,
                None => forall|i: int|
                    0 <= i < self.entries@.len() ==> (#[trigger] self.entries@[i]).0@ != key@,
            },
    {
        let mut i: usize = 0;
        while i < self.entries.len()
            invariant
                i <= self.entries@.len(),
                forall|j: int| 0 <= j < i ==> (#[trigger] self.entries@[j]).0@ != key@,
            decreases self.entries@.len() - i,
        {
            if keys_eq(&self.entries[i].0, key) {
                return Some(i);
            }
            i = i + 1;
        }
        None
    }

    /// Whether the map holds the key.
    pub fn contains_key(&self, key: &[u8; 32]) -> (r: bool)
        ensures
            r == self@.contains_key(key@),
    {
        proof {
            lemma_map_of_contains(self.entries@, key@);
        }
        self.index_of(key).is_some()
    }

    /// The value under a key, if the map holds it.
    pub fn get(&self, key: &[u8; 32]) -> (r: Option<&V>)
        requires
            self.wf(),
        ensures
            match r {
                Some(v) => self@.contains_key(key@) && *v == self@[key@],
                None => !self@.contains_key(key@),
            },
    {
        proof {
            lemma_map_of_contains(self.entries@, key@);
        }
        match self.index_of(key) {
            Some(i) => {
                proof {
                    lemma_map_of_get(self.entries@, i as int);
                }
                Some(&self.entries[i].1)
            }
            None => None,
        }
    }

    /// Puts a value under a key, replacing what the key held before.
    pub fn insert(&mut self, key: [u8; 32], value: V)
        requires
            old(self).wf(),
        ensures
            final(self)@ == old(self)@.insert(key@, value),
            final(self).wf(),
            final(self).entries@.len() <= old(self).entries@.len() + 1,
    {
        match self.index_of(&key) {
            Some(i) => {
                let ghost oldentries = self.entries@;
                self.entries.set(i, (key, value));
                proof {
                    let newentries = self.entries@;
                    assert(newentries[i as int].0@ == key@);
                    assert forall|j: int|
                        0 <= j < newentries.len() implies (#[trigger] newentries[j]).0@
                        == oldentries[j].0@ by {}
                    assert(distinct_keys(newentries)) by {
                        assert forall|a: int, b: int|
                            0 <= a < b < newentries.len() implies (#[trigger] newentries[a]).0@
                            != (#[trigger] newentries[b]).0@ by {
                            assert(oldentries[a].0@ != oldentries[b].0@);
                        }
                    }
                    let target = map_of(oldentries).insert(key@, value);
                    assert forall|k: Seq<u8>| #[trigger] map_of(newentries).contains_key(k) implies
                        target.contains_key(k) by {
                        lemma_map_of_contains(newentries, k);
                        lemma_map_of_contains(oldentries, k);
                        let j = choose|j: int|
                            0 <= j < newentries.len() && (#[trigger] newentries[j]).0@ == k;
                        assert(oldentries[j].0@ == k);
                    }
                    assert forall|k: Seq<u8>| #[trigger] target.contains_key(k) implies map_of(
                        newentries,
                    ).contains_key(k) by {
                        lemma_map_of_contains(newentries, k);
                        lemma_map_of_contains(oldentries, k);
                        if k == key@ {
                            assert(newentries[i as int].0@ == k);
                        } else {
                            let j = choose|j: int|
                                0 <= j < oldentries.len() && (#[trigger] oldentries[j]).0@ == k;
                            assert(newentries[j].0@ == k);
                        }
                    }
                    assert forall|k: Seq<u8>| map_of(newentries).contains_key(k) implies #[trigger]
                        map_of(newentries)[k] == target[k] by {
                        lemma_map_of_contains(newentries, k);
                        let j = choose|j: int|
                            0 <= j < newentries.len() && (#[trigger] newentries[j]).0@ == k;
                        lemma_map_of_get(newentries, j);
                        if k == key@ {
                            if j != i {
                                assert(oldentries[j].0@ == newentries[j].0@);
                                assert(oldentries[i as int].0@ == key@);
                                assert(false);
                            }
                            assert(map_of(newentries)[k] == value);
                        } else {
                            assert(j != i);
                            assert(oldentries[j] == newentries[j]);
                            lemma_map_of_get(oldentries, j);
                        }
                    }
                    assert(map_of(newentries).dom() =~= target.dom());
                    assert(map_of(newentries) =~= target);
                }
            }
            None => {
                self.entries.push((key, value));
                proof {
                    assert(self.entries@.drop_last() =~= old(self).entries@);
                    assert(distinct_keys(self.entries@)) by {
                        assert forall|a: int, b: int|
                            0 <= a < b < self.entries@.len() implies (#[trigger] self.entries@[a]).0@
                            != (#[trigger] self.entries@[b]).0@ by {
                            if b < self.entries@.len() - 1 {
                                assert(old(self).entries@[a].0@ != old(self).entries@[b].0@);
                            } else {
                                assert(old(self).entries@[a].0@ != key@);
                            }
                        }
                    }
                }
            }
        }
    }

    /// Takes a key out of the map; absent keys are left as they are.
    pub fn remove(&mut self, key: &[u8; 32])
        requires
            old(self).wf(),
        ensures
            final(self)@ == old(self)@.remove(key@),
            final(self).wf(),
            final(self).entries@.len() <= old(self).entries@.len(),
    {
        match self.index_of(key) {
            Some(i) => {
                let ghost oldentries = self.entries@;
                self.entries.remove(i);
                proof {
                    let newentries = self.entries@;
                    assert forall|j: int|
                        0 <= j < newentries.len() implies #[trigger] newentries[j] == oldentries[(
                        if j < i {
                            j
                        } else {
                            j + 1
                        })] by {}
                    assert(distinct_keys(newentries)) by {
                        assert forall|a: int, b: int|
                            0 <= a < b < newentries.len() implies (#[trigger] newentries[a]).0@
                            != (#[trigger] newentries[b]).0@ by {
                            let a0: int = if a < i { a } else { a + 1 };
                            let b0: int = if b < i { b } else { b + 1 };
                            assert(oldentries[a0].0@ != oldentries[b0].0@);
                        }
                    }
                    let target = map_of(oldentries).remove(key@);
                    assert forall|k: Seq<u8>| #[trigger] map_of(newentries).contains_key(k) implies
                        target.contains_key(k) by {
                        lemma_map_of_contains(newentries, k);
                        lemma_map_of_contains(oldentries, k);
                        let j = choose|j: int|
                            0 <= j < newentries.len() && (#[trigger] newentries[j]).0@ == k;
                        let j0: int = if j < i { j } else { j + 1 };
                        assert(oldentries[j0].0@ == k);
                        assert(k != key@) by {
                            if k == key@ {
                                assert(oldentries[i as int].0@ == key@);
                            }
                        }
                    }
                    assert forall|k: Seq<u8>| #[trigger] target.contains_key(k) implies map_of(
                        newentries,
                    ).contains_key(k) by {
                        lemma_map_of_contains(newentries, k);
                        lemma_map_of_contains(oldentries, k);
                        let j = choose|j: int|
                            0 <= j < oldentries.len() && (#[trigger] oldentries[j]).0@ == k;
                        assert(j != i) by {
                            if j == i {
                                assert(oldentries[i as int].0@ == key@);
                            }
                        }
                        let j1: int = if j < i { j } else { j - 1 };
                        assert(newentries[j1].0@ == k);
                    }
                    assert forall|k: Seq<u8>| map_of(newentries).contains_key(k) implies #[trigger]
                        map_of(newentries)[k] == target[k] by {
                        lemma_map_of_contains(newentries, k);
                        let j = choose|j: int|
                            0 <= j < newentries.len() && (#[trigger] newentries[j]).0@ == k;
                        lemma_map_of_get(newentries, j);
                        let j0: int = if j < i { j } else { j + 1 };
                        lemma_map_of_get(oldentries, j0);
                        assert(k != key@) by {
                            if k == key@ {
                                assert(oldentries[i as int].0@ == key@);
                            }
                        }
                    }
                    assert(map_of(newentries).dom() =~= target.dom());
                    assert(map_of(newentries) =~= target);
                }
            }
            None => {
                proof {
                    lemma_map_of_contains(self.entries@, key@);
                    assert(map_of(self.entries@) =~= map_of(self.entries@).remove(key@));
                }
            }
        }
    }
}

impl IdMap<u64> {
    /// A key mapped to the given value, if the map holds one.
    pub fn key_of(&self, value: u64) -> (r: Option<[u8; 32]>)
        requires
            self.wf(),
        ensures
            match r {
                Some(k) => self@.contains_key(k@) && self@[k@] == value,
                None => forall|k: Seq<u8>| self@.contains_key(k) ==> self@[k] != value,
            },
    {
        let mut i: usize = 0;
        while i < self.entries.len()
            invariant
                self.wf(),
                i <= self.entries@.len(),
                forall|j: int| 0 <= j < i ==> (#[trigger] self.entries@[j]).1 != value,
            decreases self.entries@.len() - i,
        {
            if self.entries[i].1 == value {
                proof {
                    lemma_map_of_get(self.entries@, i as int);
                }
                return Some(self.entries[i].0);
            }
            i = i + 1;
        }
        proof {
            assert forall|k: Seq<u8>| self@.contains_key(k) implies self@[k] != value by {
                lemma_map_of_contains(self.entries@, k);
                let j = choose|j: int|
                    0 <= j < self.entries@.len() && (#[trigger] self.entries@[j]).0@ == k;
                lemma_map_of_get(self.entries@, j);
            }
        }
        None
    }
}

} // verus!
