//! A map keyed by strings.

use vstd::prelude::*;
use crate::views::clone_keeps_view;

verus! {

/// A finite map keyed by strings, kept as a list of entries in insertion
/// order. No two entries have keys with the same characters.
#[derive(Debug)]
pub struct StrMap<V> {
    entries: Vec<(String, V)>,
}

/// The characters of the key of each entry.
spec fn entry_keys<V>(entries: Seq<(String, V)>) -> Seq<Seq<char>> {
    entries.map_values(|e: (String, V)| e.0@)
}

/// The value of each entry.
spec fn entry_values<V>(entries: Seq<(String, V)>) -> Seq<V> {
    entries.map_values(|e: (String, V)| e.1)
}

impl<V> StrMap<V> {
    #[verifier::type_invariant]
    spec fn inv(&self) -> bool {
        entry_keys(self.entries@).no_duplicates()
    }

    /// The keys in insertion order.
    pub closed spec fn keys(&self) -> Seq<Seq<char>> {
        entry_keys(self.entries@)
    }

    /// The values, each at the position of its key in `keys()`.
    pub closed spec fn values(&self) -> Seq<V> {
        entry_values(self.entries@)
    }

    /// The map from each key to its value.
    pub open spec fn map(&self) -> Map<Seq<char>, V> {
        Map::new(
            |k: Seq<char>| self.keys().contains(k),
            |k: Seq<char>| self.values()[self.keys().index_of(k)],
        )
    }

    /// What every map satisfies: one value per key, and no key twice.
    pub open spec fn shape(&self) -> bool {
        &&& self.keys().len() == self.values().len()
        &&& self.keys().no_duplicates()
    }

    /// The map without entries.
    pub fn new() -> (m: Self)
        ensures
            m.keys() == Seq::<Seq<char>>::empty(),
            m.map() == Map::<Seq<char>, V>::empty(),
            m.shape(),
    {
        let m = StrMap { entries: Vec::new() };
        assert(m.map() =~= Map::<Seq<char>, V>::empty());
        m
    }

    /// The position of `key` among the keys, if it is one.
    pub fn position(&self, key: &String) -> (r: Option<usize>)
        ensures
            self.shape(),
            match r {
                Some(i) => i < self.keys().len() && self.keys()[i as int] == key@,
                None => !self.keys().contains(key@),
            },
    {
        proof {
            use_type_invariant(&*self);
        }
        let mut i: usize = 0;
        while i < self.entries.len()
            invariant
                i <= self.entries.len(),
                self.shape(),
                forall|j: int| 0 <= j < i ==> entry_keys(self.entries@)[j] != key@,
            decreases self.entries.len() - i,
        {
            if self.entries[i].0 == *key {
                return Some(i);
            }
            i += 1;
        }
        None
    }

    /// Whether there is an entry under `key`.
    pub fn contains_key(&self, key: &String) -> (r: bool)
        ensures
            r == self.map().contains_key(key@),
    {
        self.position(key).is_some()
    }

    /// The value under `key`, if there is one.
    pub fn get(&self, key: &String) -> (r: Option<&V>)
        ensures
            match r {
                Some(v) => self.map().contains_key(key@) && *v == self.map()[key@],
                None => !self.map().contains_key(key@),
            },
    {
        match self.position(key) {
            Some(i) => {
                proof {
                    use_type_invariant(&*self);
                }
                Some(&self.entries[i].1)
            },
            None => None,
        }
    }

    /// Puts `value` under `key`. An entry that was there under the same key
    /// is replaced in its place and handed back; a new key goes to the end.
    pub fn insert(&mut self, key: String, value: V) -> (previous: Option<V>)
        ensures
            final(self).map() == old(self).map().insert(key@, value),
            previous == (if old(self).map().contains_key(key@) {
                Some(old(self).map()[key@])
            } else {
                None
            }),
            final(self).keys() == (if old(self).map().contains_key(key@) {
                old(self).keys()
            } else {
                old(self).keys().push(key@)
            }),
            final(self).shape(),
    {
        proof {
            use_type_invariant(&*self);
        }
        let found = self.position(&key);
        let ghost before = self.entries@;
        let ghost k = key@;
        let mut entries: Vec<(String, V)> = Vec::new();
        std::mem::swap(&mut entries, &mut self.entries);
        let previous = match found {
            Some(i) => {
                entries.push((key, value));
                let old_entry = entries.swap_remove(i);
                proof {
                    assert(entry_keys(entries@) =~= entry_keys(before));
                }
                Some(old_entry.1)
            },
            None => {
                entries.push((key, value));
                proof {
                    assert(entry_keys(entries@) =~= entry_keys(before).push(k));
                }
                None
            },
        };
        self.entries = entries;
        proof {
            assert(final(self).map() =~= old(self).map().insert(k, value)) by {
                let ks = entry_keys(before);
                let ks2 = final(self).keys();
                assert forall|q: Seq<char>| #[trigger] ks2.contains(q) implies (q == k || ks.contains(q)) by {
                    let j = choose|j: int| 0 <= j < ks2.len() && ks2[j] == q;
                    if j < ks.len() {
                        assert(ks[j] == q);
                    }
                }
                assert forall|q: Seq<char>| (q == k || ks.contains(q)) implies #[trigger] ks2.contains(q) by {
                    if q == k {
                        match found {
                            Some(i) => { assert(ks2[i as int] == q); },
                            None => { assert(ks2[ks.len() as int] == q); },
                        }
                    } else {
                        let j = choose|j: int| 0 <= j < ks.len() && ks[j] == q;
                        assert(ks2[j] == q);
                    }
                }
            }
        }
        previous
    }

    /// Puts `value` under the new key `key`, at position `i` of the order.
    pub fn insert_at(&mut self, i: usize, key: String, value: V)
        requires
            i <= old(self).keys().len(),
            !old(self).map().contains_key(key@),
        ensures
            final(self).keys() == old(self).keys().insert(i as int, key@),
            final(self).map() == old(self).map().insert(key@, value),
            final(self).shape(),
    {
        proof {
            use_type_invariant(&*self);
        }
        let ghost before = self.entries@;
        let ghost k = key@;
        let mut entries: Vec<(String, V)> = Vec::new();
        std::mem::swap(&mut entries, &mut self.entries);
        entries.insert(i, (key, value));
        proof {
            assert(entry_keys(entries@) =~= entry_keys(before).insert(i as int, k));
            assert(entry_values(entries@) =~= entry_values(before).insert(i as int, value));
            let ks = entry_keys(before);
            let ks2 = entry_keys(entries@);
            assert forall|a: int, b: int| 0 <= a < ks2.len() && 0 <= b < ks2.len() && a != b implies ks2[a]
                != ks2[b] by {
                let a0 = if a < i { a } else { a - 1 };
                let b0 = if b < i { b } else { b - 1 };
                if a != i && b != i {
                    assert(ks2[a] == ks[a0] && ks2[b] == ks[b0]);
                } else if a == i {
                    assert(ks2[b] == ks[b0]);
                    assert(ks.contains(ks[b0]));
                } else {
                    assert(ks2[a] == ks[a0]);
                    assert(ks.contains(ks[a0]));
                }
            }
        }
        self.entries = entries;
        proof {
            let ks = entry_keys(before);
            let ks2 = final(self).keys();
            assert forall|q: Seq<char>| #[trigger] ks2.contains(q) implies (q == k || ks.contains(
                q,
            )) by {
                let j = choose|j: int| 0 <= j < ks2.len() && ks2[j] == q;
                if j < i {
                    assert(ks[j] == q);
                } else if j > i {
                    assert(ks[j - 1] == q);
                }
            }
            assert forall|q: Seq<char>| (q == k || ks.contains(q)) implies #[trigger] ks2.contains(
                q,
            ) by {
                if q == k {
                    assert(ks2[i as int] == q);
                } else {
                    let j = choose|j: int| 0 <= j < ks.len() && ks[j] == q;
                    if j < i {
                        assert(ks2[j] == q);
                    } else {
                        assert(ks2[j + 1] == q);
                    }
                }
            }
            assert forall|q: Seq<char>| #[trigger] ks2.contains(q) implies final(self).map()[q] == old(
                self,
            ).map().insert(k, value)[q] by {
                let j = ks2.index_of(q);
                if j < i {
                    assert(ks[j] == q);
                } else if j > i {
                    assert(ks[j - 1] == q);
                }
            }
            assert(final(self).map() =~= old(self).map().insert(k, value));
        }
    }

    /// Takes the entry at position `i` of the insertion order out. The other
    /// entries keep their order.
    pub fn remove_at(&mut self, i: usize) -> (entry: (String, V))
        requires
            i < old(self).keys().len(),
        ensures
            entry.0@ == old(self).keys()[i as int],
            old(self).map().contains_key(entry.0@),
            entry.1 == old(self).map()[entry.0@],
            final(self).keys() == old(self).keys().remove(i as int),
            final(self).map() == old(self).map().remove(entry.0@),
            final(self).shape(),
    {
        proof {
            use_type_invariant(&*self);
        }
        let ghost before = self.entries@;
        let mut entries: Vec<(String, V)> = Vec::new();
        std::mem::swap(&mut entries, &mut self.entries);
        let entry = entries.remove(i);
        proof {
            assert(entry_keys(entries@) =~= entry_keys(before).remove(i as int));
            assert(entry_values(entries@) =~= entry_values(before).remove(i as int));
        }
        self.entries = entries;
        proof {
            let ks = entry_keys(before);
            let ks2 = final(self).keys();
            let k = ks[i as int];
            assert(ks.contains(k));
            assert forall|q: Seq<char>| #[trigger] ks2.contains(q) implies (q != k && ks.contains(
                q,
            )) by {
                let j = choose|j: int| 0 <= j < ks2.len() && ks2[j] == q;
                if j < i {
                    assert(ks[j] == q);
                } else {
                    assert(ks[j + 1] == q);
                }
            }
            assert forall|q: Seq<char>| (q != k && ks.contains(q)) implies #[trigger] ks2.contains(
                q,
            ) by {
                let j = choose|j: int| 0 <= j < ks.len() && ks[j] == q;
                if j < i {
                    assert(ks2[j] == q);
                } else {
                    assert(ks2[j - 1] == q);
                }
            }
            assert forall|q: Seq<char>| #[trigger] ks2.contains(q) implies final(self).map()[q]
                == old(self).map()[q] by {
                let j = ks2.index_of(q);
                if j < i {
                    assert(ks[j] == q);
                } else {
                    assert(ks[j + 1] == q);
                }
            }
            assert(final(self).map() =~= old(self).map().remove(k));
        }
        entry
    }

    /// Takes the entry under `key` out, if there is one. The other entries
    /// keep their order.
    pub fn remove(&mut self, key: &String) -> (removed: Option<V>)
        ensures
            final(self).map() == old(self).map().remove(key@),
            removed == (if old(self).map().contains_key(key@) {
                Some(old(self).map()[key@])
            } else {
                None
            }),
            final(self).keys() == (if old(self).map().contains_key(key@) {
                old(self).keys().remove(old(self).keys().index_of(key@))
            } else {
                old(self).keys()
            }),
            final(self).shape(),
    {
        match self.position(key) {
            Some(i) => {
                let entry = self.remove_at(i);
                Some(entry.1)
            },
            None => {
                proof {
                    assert(self.map() =~= old(self).map().remove(key@));
                }
                None
            },
        }
    }

    /// Takes the entry that was inserted first out, if the map is not empty.
    pub fn take_first(&mut self) -> (first: Option<(String, V)>)
        ensures
            final(self).shape(),
            match first {
                Some(entry) => {
                    &&& old(self).keys().len() > 0
                    &&& entry.0@ == old(self).keys()[0]
                    &&& old(self).map().contains_key(entry.0@)
                    &&& entry.1 == old(self).map()[entry.0@]
                    &&& final(self).keys() == old(self).keys().remove(0)
                    &&& final(self).map() == old(self).map().remove(entry.0@)
                },
                None => old(self).keys().len() == 0 && final(self).keys().len() == 0,
            },
    {
        if self.len() == 0 {
            None
        } else {
            Some(self.remove_at(0))
        }
    }

    /// The key at position `i` of the insertion order.
    pub fn key_at(&self, i: usize) -> (key: &String)
        requires
            i < self.keys().len(),
        ensures
            key@ == self.keys()[i as int],
            self.map().contains_key(key@),
    {
        proof {
            assert(self.keys()[i as int] == self.entries@[i as int].0@);
        }
        &self.entries[i].0
    }

    /// The value at position `i` of the insertion order.
    pub fn value_at(&self, i: usize) -> (value: &V)
        requires
            i < self.keys().len(),
        ensures
            self.shape(),
            *value == self.values()[i as int],
            *value == self.map()[self.keys()[i as int]],
    {
        proof {
            use_type_invariant(&*self);
        }
        &self.entries[i].1
    }

    /// Whether the map has no entry.
    pub fn is_empty(&self) -> (r: bool)
        ensures
            r == (self.keys().len() == 0),
            r == (self.map() == Map::<Seq<char>, V>::empty()),
    {
        proof {
            if self.keys().len() == 0 {
                assert(self.map() =~= Map::<Seq<char>, V>::empty());
            } else {
                assert(self.keys().contains(self.keys()[0]));
                assert(self.map().contains_key(self.keys()[0]));
            }
        }
        self.entries.len() == 0
    }

    /// The number of entries.
    pub fn len(&self) -> (n: usize)
        ensures
            n == self.keys().len(),
            self.shape(),
    {
        proof {
            use_type_invariant(&*self);
        }
        self.entries.len()
    }
}

impl<V: View> View for StrMap<V> {
    type V = Map<Seq<char>, V::V>;

    /// The map from each key to the view of its value.
    open spec fn view(&self) -> Map<Seq<char>, V::V> {
        self.map().map_values(|v: V| v@)
    }
}

impl<V: Clone> Clone for StrMap<V> {
    /// A map with the same keys in the same order, each value a clone of
    /// the value that this map holds there.
    fn clone(&self) -> (r: Self)
        ensures
            r.keys() == self.keys(),
            r.values().len() == self.values().len(),
            forall|i: int|
                0 <= i < self.values().len() ==> cloned(
                    #[trigger] self.values()[i],
                    r.values()[i],
                ),
    {
        proof {
            use_type_invariant(self);
        }
        let mut entries: Vec<(String, V)> = Vec::new();
        let mut i: usize = 0;
        while i < self.entries.len()
            invariant
                i <= self.entries.len(),
                entries@.len() == i,
                entry_keys(entries@) == entry_keys(self.entries@).take(i as int),
                forall|j: int|
                    0 <= j < i ==> cloned(
                        #[trigger] entry_values(self.entries@)[j],
                        entry_values(entries@)[j],
                    ),
            decreases self.entries.len() - i,
        {
            let key = self.entries[i].0.clone();
            let value = self.entries[i].1.clone();
            entries.push((key, value));
            proof {
                assert(entry_keys(entries@) =~= entry_keys(self.entries@).take(i + 1));
            }
            i += 1;
        }
        proof {
            assert(entry_keys(self.entries@).take(i as int) =~= entry_keys(self.entries@));
        }
        StrMap { entries }
    }
}

impl<V: Clone + View> StrMap<V> {
    /// A copy of this map: the same keys in the same order, under each a
    /// clone of the value.
    pub fn copy(&self) -> (r: Self)
        requires
            clone_keeps_view::<V>(),
        ensures
            r@ == self@,
            r.keys() == self.keys(),
            r.shape(),
    {
        let r = self.clone();
        proof {
            use_type_invariant(self);
            use_type_invariant(&r);
            assert forall|k: Seq<char>| #[trigger] self.keys().contains(k) implies r.map()[k]@
                == self.map()[k]@ by {
                let i = self.keys().index_of(k);
                assert(cloned(self.values()[i], r.values()[i]));
            }
            assert(r@ =~= self@);
        }
        r
    }

    /// Lays a copy of each entry of `other` over this map: where both have
    /// a key, the value of `other` stands afterwards.
    pub fn overlay(&mut self, other: &StrMap<V>)
        requires
            clone_keeps_view::<V>(),
        ensures
            final(self)@ == old(self)@.union_prefer_right(other@),
    {
        let ghost start = self@;
        let n = other.len();
        let mut i: usize = 0;
        proof {
            assert(self@ =~= start.union_prefer_right(other@.restrict(first_keys(other.keys(), 0))));
        }
        while i < n
            invariant
                i <= n,
                n == other.keys().len(),
                other.shape(),
                clone_keeps_view::<V>(),
                self@ == start.union_prefer_right(
                    other@.restrict(first_keys(other.keys(), i as int)),
                ),
            decreases n - i,
        {
            let ghost before = self@;
            let ghost seen = first_keys(other.keys(), i as int);
            let key = other.key_at(i).clone();
            let value = other.value_at(i).clone();
            proof {
                assert(cloned(other.values()[i as int], value));
                assert(value@ == other@[key@]);
            }
            self.insert(key, value);
            proof {
                assert(self@ =~= before.insert(key@, value@));
                assert(first_keys(other.keys(), i + 1) =~= seen.insert(key@));
                assert(other@.restrict(seen.insert(key@)) =~= other@.restrict(seen).insert(
                    key@,
                    value@,
                ));
                assert(self@ =~= start.union_prefer_right(
                    other@.restrict(first_keys(other.keys(), i + 1)),
                ));
            }
            i += 1;
        }
        proof {
            assert(other@.restrict(first_keys(other.keys(), n as int)) =~= other@);
        }
    }
}

/// The first `n` keys of a list of keys, as a set.
pub open spec fn first_keys(keys: Seq<Seq<char>>, n: int) -> Set<Seq<char>> {
    Set::new(|k: Seq<char>| exists|j: int| 0 <= j < n && j < keys.len() && #[trigger] keys[j] == k)
}

} // verus!
