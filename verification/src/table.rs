//! Snapshots by connection id.

use vstd::prelude::*;
use crate::state::{ConnectionCache, ConnectionCacheView};
use crate::strmap::StrMap;
use crate::text::contains_text;
use crate::views::each_view;

verus! {

/// Whether every snapshot of `m` stands under its own connection id.
pub open spec fn keyed_by_id(m: Map<Seq<char>, ConnectionCacheView>) -> bool {
    forall|id: Seq<char>| m.contains_key(id) ==> (#[trigger] m[id]).connection_id == id
}

/// What the snapshots `held` become when the fetched snapshots `fresh` come
/// in: a connection that has both is refreshed, one that only `fresh` has is
/// taken as fetched, one that only `held` has stays as it is.
pub open spec fn absorbed(
    held: Map<Seq<char>, ConnectionCacheView>,
    fresh: Map<Seq<char>, ConnectionCacheView>,
) -> Map<Seq<char>, ConnectionCacheView> {
    Map::new(
        |id: Seq<char>| held.contains_key(id) || fresh.contains_key(id),
        |id: Seq<char>|
            if fresh.contains_key(id) {
                if held.contains_key(id) {
                    held[id].refreshed(fresh[id])
                } else {
                    fresh[id]
                }
            } else {
                held[id]
            },
    )
}

/// The snapshots of `m` whose connection id is one of `listed`.
pub open spec fn listed_only(m: Map<Seq<char>, ConnectionCacheView>, listed: Seq<Seq<char>>) -> Map<
    Seq<char>,
    ConnectionCacheView,
> {
    m.restrict(Set::new(|id: Seq<char>| listed.contains(id)))
}

/// Snapshots found by their connection id, in the order in which their ids
/// came in. No id occurs twice.
#[derive(Debug)]
pub struct SnapshotTable {
    entries: StrMap<ConnectionCache>,
}

impl View for SnapshotTable {
    type V = Map<Seq<char>, ConnectionCacheView>;

    closed spec fn view(&self) -> Map<Seq<char>, ConnectionCacheView> {
        self.entries@
    }
}

impl Clone for SnapshotTable {
    fn clone(&self) -> (r: Self)
        ensures
            r@ == self@,
            r.ids() == self.ids(),
            r.shape(),
    {
        proof {
            use_type_invariant(self);
        }
        SnapshotTable { entries: self.entries.copy() }
    }
}

impl SnapshotTable {
    #[verifier::type_invariant]
    spec fn inv(&self) -> bool {
        self.entries.shape() && keyed_by_id(self.entries@)
    }

    /// The connection ids in the order of the table.
    pub closed spec fn ids(&self) -> Seq<Seq<char>> {
        self.entries.keys()
    }

    /// What holds of every table: each snapshot stands under its own id,
    /// and `ids()` lists the ids that have a snapshot, each once.
    pub open spec fn shape(&self) -> bool {
        &&& keyed_by_id(self@)
        &&& self.ids().no_duplicates()
        &&& forall|id: Seq<char>| self.ids().contains(id) <==> self@.contains_key(id)
    }


    /// The table without snapshots.
    pub fn new() -> (t: Self)
        ensures
            t@ == Map::<Seq<char>, ConnectionCacheView>::empty(),
            t.ids() == Seq::<Seq<char>>::empty(),
            t.shape(),
    {
        let t = SnapshotTable { entries: StrMap::new() };
        proof {
            assert(t@ =~= Map::<Seq<char>, ConnectionCacheView>::empty());
        }
        t
    }

    /// The number of snapshots.
    pub fn len(&self) -> (n: usize)
        ensures
            n == self.ids().len(),
            self.shape(),
    {
        proof {
            use_type_invariant(&*self);
        }
        self.entries.len()
    }

    /// Whether the table has no snapshot.
    pub fn is_empty(&self) -> (r: bool)
        ensures
            r == (self.ids().len() == 0),
            r == (self@ == Map::<Seq<char>, ConnectionCacheView>::empty()),
            self.shape(),
    {
        proof {
            use_type_invariant(&*self);
        }
        let n = self.entries.len();
        proof {
            if n == 0 {
                assert(self@ =~= Map::<Seq<char>, ConnectionCacheView>::empty());
            } else {
                assert(self.ids().contains(self.ids()[0]));
                assert(self@.contains_key(self.ids()[0]));
            }
        }
        n == 0
    }

    /// Whether the connection `id` has a snapshot.
    pub fn contains(&self, id: &String) -> (r: bool)
        ensures
            r == self@.contains_key(id@),
    {
        self.entries.contains_key(id)
    }

    /// The snapshot of the connection `id`, if the table has one.
    pub fn get(&self, id: &String) -> (r: Option<&ConnectionCache>)
        ensures
            match r {
                Some(s) => self@.contains_key(id@) && s@ == self@[id@],
                None => !self@.contains_key(id@),
            },
    {
        self.entries.get(id)
    }

    /// The id at position `i` of the table's order.
    pub fn id_at(&self, i: usize) -> (id: &String)
        requires
            i < self.ids().len(),
        ensures
            id@ == self.ids()[i as int],
            self@.contains_key(id@),
    {
        self.entries.key_at(i)
    }

    /// The snapshot at position `i` of the table's order.
    pub fn snapshot_at(&self, i: usize) -> (s: &ConnectionCache)
        requires
            i < self.ids().len(),
        ensures
            s@ == self@[self.ids()[i as int]],
            s@.connection_id == self.ids()[i as int],
    {
        proof {
            use_type_invariant(&*self);
        }
        let ghost id = self.ids()[i as int];
        let s = self.entries.value_at(i);
        proof {
            assert(self.entries.keys().contains(id));
            assert(self.entries@.contains_key(id));
        }
        s
    }

    /// Puts `snapshot` under its connection id. A snapshot that stood there
    /// is replaced in its place and handed back; a new id goes to the end.
    pub fn insert(&mut self, snapshot: ConnectionCache) -> (previous: Option<ConnectionCache>)
        ensures
            final(self)@ == old(self)@.insert(snapshot@.connection_id, snapshot@),
            match previous {
                Some(p) => old(self)@.contains_key(snapshot@.connection_id) && p@ == old(
                    self,
                )@[snapshot@.connection_id],
                None => !old(self)@.contains_key(snapshot@.connection_id),
            },
            final(self).ids() == (if old(self)@.contains_key(snapshot@.connection_id) {
                old(self).ids()
            } else {
                old(self).ids().push(snapshot@.connection_id)
            }),
            final(self).shape(),
    {
        proof {
            use_type_invariant(&*self);
        }
        let key = snapshot.connection_id.clone();
        let mut entries: StrMap<ConnectionCache> = StrMap::new();
        std::mem::swap(&mut entries, &mut self.entries);
        let ghost before = entries@;
        let previous = entries.insert(key, snapshot);
        proof {
            assert(entries@ =~= before.insert(snapshot@.connection_id, snapshot@));
        }
        self.entries = entries;
        previous
    }

    /// Takes the snapshot of the connection `id` out, if the table has one.
    /// The others keep their order.
    pub fn remove(&mut self, id: &String) -> (removed: Option<ConnectionCache>)
        ensures
            final(self)@ == old(self)@.remove(id@),
            match removed {
                Some(s) => old(self)@.contains_key(id@) && s@ == old(self)@[id@],
                None => !old(self)@.contains_key(id@),
            },
            final(self).ids() == (if old(self)@.contains_key(id@) {
                old(self).ids().remove(old(self).ids().index_of(id@))
            } else {
                old(self).ids()
            }),
            final(self).shape(),
    {
        proof {
            use_type_invariant(&*self);
        }
        let mut entries: StrMap<ConnectionCache> = StrMap::new();
        std::mem::swap(&mut entries, &mut self.entries);
        let ghost before = entries@;
        let removed = entries.remove(id);
        proof {
            assert(entries@ =~= before.remove(id@));
        }
        self.entries = entries;
        removed
    }

    /// Takes the first snapshot of the table's order out, if there is one.
    pub fn take_first(&mut self) -> (first: Option<ConnectionCache>)
        ensures
            final(self).shape(),
            match first {
                Some(s) => {
                    &&& old(self).ids().len() > 0
                    &&& s@.connection_id == old(self).ids()[0]
                    &&& old(self)@.contains_key(s@.connection_id)
                    &&& s@ == old(self)@[s@.connection_id]
                    &&& final(self).ids() == old(self).ids().remove(0)
                    &&& final(self)@ == old(self)@.remove(s@.connection_id)
                },
                None => old(self).ids().len() == 0 && final(self).ids().len() == 0,
            },
    {
        proof {
            use_type_invariant(&*self);
        }
        let mut entries: StrMap<ConnectionCache> = StrMap::new();
        std::mem::swap(&mut entries, &mut self.entries);
        let ghost before = entries@;
        let first = entries.take_first();
        let r = match first {
            Some(entry) => {
                proof {
                    assert(entries@ =~= before.remove(entry.0@));
                    assert(before.contains_key(entry.0@));
                    assert(before[entry.0@] == entry.1@);
                }
                Some(entry.1)
            },
            None => None,
        };
        self.entries = entries;
        r
    }

    /// Brings one fetched snapshot in: a snapshot that stands under its id
    /// is refreshed in its place; without one the fetched snapshot goes to
    /// the end as it is.
    pub fn upsert(&mut self, fresh: ConnectionCache)
        ensures
            final(self)@ == old(self)@.insert(
                fresh@.connection_id,
                if old(self)@.contains_key(fresh@.connection_id) {
                    old(self)@[fresh@.connection_id].refreshed(fresh@)
                } else {
                    fresh@
                },
            ),
            final(self).ids() == (if old(self)@.contains_key(fresh@.connection_id) {
                old(self).ids()
            } else {
                old(self).ids().push(fresh@.connection_id)
            }),
            final(self).shape(),
    {
        proof {
            use_type_invariant(&*self);
        }
        let mut entries: StrMap<ConnectionCache> = StrMap::new();
        std::mem::swap(&mut entries, &mut self.entries);
        let ghost before = entries@;
        let ghost keys = entries.keys();
        let ghost id = fresh@.connection_id;
        match entries.position(&fresh.connection_id) {
            Some(i) => {
                let entry = entries.remove_at(i);
                proof {
                    assert(before[id] == entry.1@);
                }
                let merged = entry.1.refresh(fresh);
                entries.insert_at(i, entry.0, merged);
                proof {
                    assert(entries.keys() =~= keys);
                    assert(entries@ =~= before.insert(id, before[id].refreshed(fresh@)));
                }
            },
            None => {
                let key = fresh.connection_id.clone();
                entries.insert(key, fresh);
                proof {
                    assert(entries@ =~= before.insert(id, fresh@));
                }
            },
        }
        self.entries = entries;
    }

    /// Brings a set of fetched snapshots in, one by one in their order.
    pub fn absorb(&mut self, fresh: SnapshotTable)
        ensures
            final(self)@ == absorbed(old(self)@, fresh@),
            final(self).shape(),
    {
        let ghost start = self@;
        let ghost all = fresh@;
        let mut rest = fresh;
        let mut n = rest.len();
        proof {
            use_type_invariant(&*self);
            assert(self@ =~= absorbed(start, all.remove_keys(rest@.dom())));
        }
        while n > 0
            invariant
                n == rest.ids().len(),
                rest.shape(),
                self.shape(),
                forall|id: Seq<char>| #[trigger]
                    rest@.contains_key(id) ==> all.contains_key(id) && all[id] == rest@[id],
                self@ == absorbed(start, all.remove_keys(rest@.dom())),
            decreases n,
        {
            let ghost done = all.remove_keys(rest@.dom());
            let ghost rest_before = rest@;
            let ghost mine = self@;
            match rest.take_first() {
                Some(snapshot) => {
                    let ghost id = snapshot@.connection_id;
                    proof {
                        assert(rest_before.contains_key(id));
                        assert(!done.contains_key(id));
                    }
                    self.upsert(snapshot);
                    proof {
                        assert(all.remove_keys(rest@.dom()) =~= done.insert(id, all[id]));
                        assert(self@ =~= absorbed(start, done.insert(id, all[id])));
                    }
                },
                None => {},
            }
            n = rest.len();
        }
        proof {
            assert(rest@.dom() =~= Set::<Seq<char>>::empty());
            assert(all.remove_keys(rest@.dom()) =~= all);
        }
    }

    /// Drops every snapshot whose connection id is not one of `listed`.
    /// The others keep their order.
    pub fn retain_listed(&mut self, listed: &Vec<String>)
        ensures
            final(self)@ == listed_only(old(self)@, each_view(listed@)),
            final(self).shape(),
    {
        let ghost start = self@;
        let ghost wanted = each_view(listed@);
        let mut i: usize = 0;
        let mut n = self.len();
        while i < n
            invariant
                i <= n,
                n == self.ids().len(),
                self.shape(),
                wanted == each_view(listed@),
                forall|id: Seq<char>| #[trigger]
                    self@.contains_key(id) ==> start.contains_key(id) && start[id] == self@[id],
                forall|id: Seq<char>|
                    start.contains_key(id) && wanted.contains(id) ==> #[trigger] self@.contains_key(
                        id,
                    ),
                forall|j: int| 0 <= j < i ==> wanted.contains(#[trigger] self.ids()[j]),
            decreases n - i,
        {
            let ghost ids = self.ids();
            if contains_text(listed, self.id_at(i)) {
                i += 1;
            } else {
                let id = self.id_at(i).clone();
                proof {
                    assert(ids.index_of(id@) == i);
                }
                self.remove(&id);
                n = self.len();
            }
        }
        proof {
            assert forall|id: Seq<char>| #[trigger] self@.contains_key(id) implies wanted.contains(
                id,
            ) by {
                assert(self.ids().contains(id));
                let j = self.ids().index_of(id);
                assert(wanted.contains(self.ids()[j]));
            }
            assert(self@ =~= listed_only(start, wanted));
        }
    }
}

} // verus!
