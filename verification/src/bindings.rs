//! Which account is bound to which connection.

use std::collections::HashMap;
use vstd::prelude::*;
use crate::text::same_text;

verus! {

/// Which account is bound to which connection. An account is bound to at
/// most one connection at a time.
#[derive(Debug)]
pub struct Bindings {
    map: HashMap<usize, String>,
}

impl View for Bindings {
    type V = Map<usize, Seq<char>>;

    /// The connection id of each bound account.
    closed spec fn view(&self) -> Map<usize, Seq<char>> {
        self.map@.map_values(|id: String| id@)
    }
}

impl Clone for Bindings {
    fn clone(&self) -> (r: Self)
        ensures
            r@ == self@,
    {
        Bindings { map: self.map.clone() }
    }
}

impl Bindings {
    /// Whether some account is bound to the connection `id`.
    pub open spec fn binds(m: Map<usize, Seq<char>>, id: Seq<char>) -> bool {
        exists|a: usize| m.contains_key(a) && #[trigger] m[a] == id
    }

    /// No account bound.
    pub fn new() -> (b: Self)
        ensures
            b@ == Map::<usize, Seq<char>>::empty(),
    {
        let b = Bindings { map: HashMap::new() };
        proof {
            assert(b@ =~= Map::<usize, Seq<char>>::empty());
        }
        b
    }

    /// Whether the account is bound.
    pub fn contains(&self, account: usize) -> (r: bool)
        ensures
            r == self@.contains_key(account),
    {
        broadcast use vstd::std_specs::hash::group_hash_axioms;

        self.map.contains_key(&account)
    }

    /// The connection that the account is bound to.
    pub fn get(&self, account: usize) -> (r: Option<&String>)
        ensures
            match r {
                Some(id) => self@.contains_key(account) && id@ == self@[account],
                None => !self@.contains_key(account),
            },
    {
        broadcast use vstd::std_specs::hash::group_hash_axioms;

        self.map.get(&account)
    }

    /// An account that is bound to the connection `id`, if there is one.
    pub fn owner(&self, id: &String) -> (r: Option<usize>)
        ensures
            match r {
                Some(a) => self@.contains_key(a) && self@[a] == id@,
                None => !Self::binds(self@, id@),
            },
    {
        broadcast use vstd::std_specs::hash::group_hash_axioms;

        for (account, bound) in it: self.map.iter()
            invariant
                forall|j: int| 0 <= j < it.index() ==> (*(#[trigger] it.seq()[j]).1)@ != id@,
        {
            if same_text(bound, id) {
                return Some(*account);
            }
        }
        proof {
            assert forall|a: usize| self@.contains_key(a) implies #[trigger] self@[a] != id@ by {
                assert(self.map@.contains_key(a));
            }
        }
        None
    }

    /// The account that a snapshot of the connection `id` is to name: an
    /// account that is bound to it, and the first account where none is.
    pub fn account_index_for(&self, id: &String) -> (r: usize)
        ensures
            if Self::binds(self@, id@) {
                self@.contains_key(r) && self@[r] == id@
            } else {
                r == 0
            },
    {
        match self.owner(id) {
            Some(account) => account,
            None => 0,
        }
    }

    /// Binds the account to the connection `id`, in place of the connection
    /// that it was bound to.
    pub fn bind(&mut self, account: usize, id: String)
        ensures
            final(self)@ == old(self)@.insert(account, id@),
    {
        broadcast use vstd::std_specs::hash::group_hash_axioms;

        self.map.insert(account, id);
        proof {
            assert(self@ =~= old(self)@.insert(account, id@));
        }
    }

    /// Takes the binding of the account out and hands back the connection
    /// that it was bound to.
    pub fn unbind(&mut self, account: usize) -> (r: Option<String>)
        ensures
            final(self)@ == old(self)@.remove(account),
            match r {
                Some(id) => old(self)@.contains_key(account) && id@ == old(self)@[account],
                None => !old(self)@.contains_key(account),
            },
    {
        broadcast use vstd::std_specs::hash::group_hash_axioms;

        let r = self.map.remove(&account);
        proof {
            assert(self@ =~= old(self)@.remove(account));
        }
        r
    }
}

} // verus!
