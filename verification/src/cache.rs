//! The cache that the user interface reads, and the pass that brings it up
//! to date.

use vstd::prelude::*;
use crate::model::{Account, AccountView, Message, MessageView};
use crate::ledger::still_pending;
use crate::state::{lemma_refresh_idempotent, ConnectionCache, ConnectionCacheView};
use crate::table::{absorbed, keyed_by_id, listed_only, SnapshotTable};
use crate::text::copy_opt_text;
use crate::views::{clone_keeps_view, copy_each, each_view};

verus! {

/// Everything the user interface reads: the accounts, one snapshot for each
/// connection that the backend lists, the connection that is shown, and
/// when the snapshots were last brought up to date (milliseconds since the
/// Unix epoch).
///
/// A connection is shown whenever there is a snapshot, and the one that is
/// shown always has a snapshot.
#[derive(Debug)]
pub struct UiCache {
    accounts: Vec<Account>,
    connections: SnapshotTable,
    active_connection: Option<String>,
    updated: Option<i64>,
}

/// What a cache holds, as mathematics.
pub struct UiCacheView {
    pub accounts: Seq<AccountView>,
    pub connections: Map<Seq<char>, ConnectionCacheView>,
    pub active_connection: Option<Seq<char>>,
    pub updated: Option<i64>,
}

impl UiCacheView {
    /// The cache with no account and no snapshot, never brought up to date.
    pub open spec fn empty() -> UiCacheView {
        UiCacheView {
            accounts: Seq::empty(),
            connections: Map::empty(),
            active_connection: None,
            updated: None,
        }
    }

    /// Whether the connection that is shown has a snapshot, and whether
    /// none is shown only where there is no snapshot at all.
    pub open spec fn selection_valid(self) -> bool {
        match self.active_connection {
            Some(id) => self.connections.contains_key(id),
            None => forall|id: Seq<char>| !self.connections.contains_key(id),
        }
    }

    /// What holds of every cache: each snapshot stands under its own
    /// connection id, and the selection is valid.
    pub open spec fn inv(self) -> bool {
        keyed_by_id(self.connections) && self.selection_valid()
    }

    /// Whether `then` shows the connection that `self` shows, as far as
    /// `then` still has its snapshot.
    pub open spec fn selection_kept_by(self, then: UiCacheView) -> bool {
        match self.active_connection {
            Some(id) => then.connections.contains_key(id) ==> then.active_connection == Some(id),
            None => true,
        }
    }

    /// The snapshot of the connection that is shown.
    pub open spec fn active_snapshot(self) -> Option<ConnectionCacheView> {
        match self.active_connection {
            Some(id) => Some(self.connections[id]),
            None => None,
        }
    }

    /// The cache after a snapshot was put under its id: it is shown if no
    /// connection was.
    pub open spec fn with_snapshot(self, snapshot: ConnectionCacheView) -> UiCacheView {
        UiCacheView {
            connections: self.connections.insert(snapshot.connection_id, snapshot),
            active_connection: match self.active_connection {
                Some(id) => Some(id),
                None => Some(snapshot.connection_id),
            },
            ..self
        }
    }

    /// The cache after `message` was added to the pending messages of the
    /// connection that is shown.
    pub open spec fn with_pending(self, message: MessageView) -> UiCacheView {
        match self.active_connection {
            Some(id) => UiCacheView {
                connections: self.connections.insert(
                    id,
                    ConnectionCacheView {
                        pending_messages: self.connections[id].pending_messages.push(message),
                        ..self.connections[id]
                    },
                ),
                ..self
            },
            None => self,
        }
    }
}

/// The snapshots after one pass: those of before with the fetched ones
/// brought in, as far as the backend lists their connection.
pub open spec fn reconciled(
    held: Map<Seq<char>, ConnectionCacheView>,
    listed: Seq<Seq<char>>,
    fresh: Map<Seq<char>, ConnectionCacheView>,
) -> Map<Seq<char>, ConnectionCacheView> {
    listed_only(absorbed(held, fresh), listed)
}

/// After a pass every listed connection of which something was fetched has
/// a snapshot: the one it had, refreshed, or the fetched one. A listed
/// connection of which nothing was fetched has the snapshot it had,
/// unchanged, or none as before.
pub proof fn lemma_pass_keeps_listed(
    held: Map<Seq<char>, ConnectionCacheView>,
    listed: Seq<Seq<char>>,
    fresh: Map<Seq<char>, ConnectionCacheView>,
    id: Seq<char>,
)
    requires
        listed.contains(id),
    ensures
        fresh.contains_key(id) ==> reconciled(held, listed, fresh).contains_key(id),
        fresh.contains_key(id) && held.contains_key(id) ==> reconciled(held, listed, fresh)[id]
            == held[id].refreshed(fresh[id]),
        fresh.contains_key(id) && !held.contains_key(id) ==> reconciled(held, listed, fresh)[id]
            == fresh[id],
        !fresh.contains_key(id) ==> (reconciled(held, listed, fresh).contains_key(id)
            <==> held.contains_key(id)),
        !fresh.contains_key(id) && held.contains_key(id) ==> reconciled(held, listed, fresh)[id]
            == held[id],
{
}

/// After a pass no connection that is not listed has a snapshot.
pub proof fn lemma_pass_drops_unlisted(
    held: Map<Seq<char>, ConnectionCacheView>,
    listed: Seq<Seq<char>>,
    fresh: Map<Seq<char>, ConnectionCacheView>,
    id: Seq<char>,
)
    requires
        !listed.contains(id),
    ensures
        !reconciled(held, listed, fresh).contains_key(id),
{
}

/// A second pass with the same list and the same fetched snapshots leaves
/// the snapshots as the first pass left them, where the fetched snapshots
/// come without pending messages: what the first pass took off the
/// pending messages stays off.
pub proof fn lemma_pass_idempotent(
    held: Map<Seq<char>, ConnectionCacheView>,
    listed: Seq<Seq<char>>,
    fresh: Map<Seq<char>, ConnectionCacheView>,
)
    requires
        forall|id: Seq<char>|
            fresh.contains_key(id) ==> (#[trigger] fresh[id]).pending_messages
                == Seq::<MessageView>::empty(),
    ensures
        reconciled(reconciled(held, listed, fresh), listed, fresh) == reconciled(
            held,
            listed,
            fresh,
        ),
{
    let once = reconciled(held, listed, fresh);
    let twice = reconciled(once, listed, fresh);
    assert forall|id: Seq<char>| once.contains_key(id) implies #[trigger] twice[id] == once[id] by {
        if fresh.contains_key(id) {
            if held.contains_key(id) {
                lemma_refresh_idempotent(held[id], fresh[id]);
            } else {
                let f = fresh[id];
                match f.current_channel {
                    Some(channel) => {
                        reveal(Seq::filter);
                        assert(still_pending(f.pending_messages, channel.messages)
                            == f.pending_messages);
                    },
                    None => {},
                }
                assert(f.refreshed(f) == f);
            }
        }
    }
    assert(twice =~= once);
}

impl View for UiCache {
    type V = UiCacheView;

    closed spec fn view(&self) -> UiCacheView {
        UiCacheView {
            accounts: each_view(self.accounts@),
            connections: self.connections@,
            active_connection: match self.active_connection {
                Some(id) => Some(id@),
                None => None,
            },
            updated: self.updated,
        }
    }
}

impl UiCache {
    /// What the type keeps true of every cache that runs.
    #[verifier::type_invariant]
    pub closed spec fn inv(&self) -> bool {
        self.connections.shape() && self@.selection_valid()
    }

    /// In a cache that keeps its invariant each snapshot stands under its
    /// own connection id, and the selection is valid.
    pub proof fn lemma_inv(&self)
        requires
            self.inv(),
        ensures
            self@.inv(),
    {
    }

    /// Which connection a cache with the snapshots `connections` shows when
    /// it showed `wish` before: `wish` if it has a snapshot, else the first
    /// connection that has one.
    fn elect(connections: &SnapshotTable, wish: Option<String>) -> (r: Option<String>)
        ensures
            match r {
                Some(id) => connections@.contains_key(id@),
                None => forall|id: Seq<char>| !connections@.contains_key(id),
            },
            match wish {
                Some(id) => connections@.contains_key(id@) ==> r is Some && r.unwrap()@ == id@,
                None => true,
            },
    {
        let keep = match &wish {
            Some(id) => connections.contains(id),
            None => false,
        };
        if keep {
            wish
        } else if connections.is_empty() {
            None
        } else {
            Some(connections.id_at(0).clone())
        }
    }

    /// The cache with no account and no snapshot.
    pub fn new() -> (c: Self)
        ensures
            c@ == UiCacheView::empty(),
    {
        let c = UiCache {
            accounts: Vec::new(),
            connections: SnapshotTable::new(),
            active_connection: None,
            updated: None,
        };
        proof {
            assert(c@.accounts =~= Seq::<AccountView>::empty());
        }
        c
    }

    /// The cache with the given accounts and no snapshot.
    pub fn with_accounts(accounts: Vec<Account>) -> (c: Self)
        ensures
            c@ == (UiCacheView { accounts: each_view(accounts@), ..UiCacheView::empty() }),
    {
        UiCache {
            accounts,
            connections: SnapshotTable::new(),
            active_connection: None,
            updated: None,
        }
    }

    /// The accounts.
    pub fn accounts(&self) -> (r: &Vec<Account>)
        ensures
            each_view(r@) == self@.accounts,
    {
        &self.accounts
    }

    /// Keeps an account: in place of the one at `editing`, or after the
    /// others where `editing` names none.
    pub fn save_account(&mut self, editing: Option<usize>, account: Account)
        requires
            editing is Some ==> editing.unwrap() < old(self)@.accounts.len(),
        ensures
            final(self)@ == (UiCacheView {
                accounts: match editing {
                    Some(i) => old(self)@.accounts.update(i as int, account@),
                    None => old(self)@.accounts.push(account@),
                },
                ..old(self)@
            }),
            final(self)@.inv(),
    {
        proof {
            use_type_invariant(&*self);
        }
        let mut me = UiCache::new();
        std::mem::swap(self, &mut me);
        let UiCache { accounts, connections, active_connection, updated } = me;
        let mut accounts = accounts;
        let ghost before = accounts@;
        match editing {
            Some(i) => {
                accounts.push(account);
                accounts.swap_remove(i);
                proof {
                    assert(each_view(accounts@) =~= each_view(before).update(i as int, account@));
                }
            },
            None => {
                accounts.push(account);
                proof {
                    assert(each_view(accounts@) =~= each_view(before).push(account@));
                }
            },
        }
        *self = UiCache { accounts, connections, active_connection, updated };
    }

    /// Takes the account at `index` out and hands it back. The accounts
    /// after it move up by one.
    pub fn delete_account(&mut self, index: usize) -> (account: Account)
        requires
            index < old(self)@.accounts.len(),
        ensures
            account@ == old(self)@.accounts[index as int],
            final(self)@ == (UiCacheView {
                accounts: old(self)@.accounts.remove(index as int),
                ..old(self)@
            }),
            final(self)@.inv(),
    {
        proof {
            use_type_invariant(&*self);
        }
        let mut me = UiCache::new();
        std::mem::swap(self, &mut me);
        let UiCache { accounts, connections, active_connection, updated } = me;
        let mut accounts = accounts;
        let ghost before = accounts@;
        let account = accounts.remove(index);
        proof {
            assert(each_view(accounts@) =~= each_view(before).remove(index as int));
        }
        *self = UiCache { accounts, connections, active_connection, updated };
        account
    }

    /// Marks the account at `index` as one to connect at the start, or
    /// takes the mark off. Without an account at `index` nothing changes.
    pub fn set_autoconnect(&mut self, index: usize, autoconnect: bool) -> (found: bool)
        ensures
            found == (index < old(self)@.accounts.len()),
            final(self)@ == (if found {
                UiCacheView {
                    accounts: old(self)@.accounts.update(
                        index as int,
                        AccountView { autoconnect, ..old(self)@.accounts[index as int] },
                    ),
                    ..old(self)@
                }
            } else {
                old(self)@
            }),
            final(self)@.inv(),
    {
        proof {
            use_type_invariant(&*self);
        }
        if index >= self.accounts.len() {
            return false;
        }
        let mut me = UiCache::new();
        std::mem::swap(self, &mut me);
        let UiCache { accounts, connections, active_connection, updated } = me;
        let mut accounts = accounts;
        let ghost before = accounts@;
        let mut account = accounts.remove(index);
        account.autoconnect = autoconnect;
        accounts.insert(index, account);
        proof {
            assert(each_view(accounts@) =~= each_view(before).update(
                index as int,
                AccountView { autoconnect, ..before[index as int]@ },
            ));
        }
        *self = UiCache { accounts, connections, active_connection, updated };
        true
    }

    /// The snapshots of the connections.
    pub fn connections(&self) -> (r: &SnapshotTable)
        ensures
            r@ == self@.connections,
            r.shape(),
            self@.inv(),
    {
        proof {
            use_type_invariant(&*self);
        }
        &self.connections
    }

    /// The id of the connection that is shown.
    pub fn active_connection_id(&self) -> (r: Option<&String>)
        ensures
            self@.inv(),
            match r {
                Some(id) => self@.active_connection == Some(id@),
                None => self@.active_connection is None,
            },
    {
        proof {
            use_type_invariant(&*self);
        }
        self.active_connection.as_ref()
    }

    /// When the last pass was made, if one was.
    pub fn updated(&self) -> (r: Option<i64>)
        ensures
            r == self@.updated,
    {
        self.updated
    }

    /// The snapshot of the connection that is shown.
    pub fn active(&self) -> (r: Option<&ConnectionCache>)
        ensures
            self@.inv(),
            match r {
                Some(s) => self@.active_snapshot() == Some(s@),
                None => self@.active_connection is None,
            },
    {
        proof {
            use_type_invariant(&*self);
        }
        match &self.active_connection {
            Some(id) => self.connections.get(id),
            None => None,
        }
    }

    /// A copy of the snapshot of the connection that is shown.
    pub fn active_snapshot(&self) -> (r: Option<ConnectionCache>)
        ensures
            self@.inv(),
            match r {
                Some(s) => self@.active_snapshot() == Some(s@),
                None => self@.active_connection is None,
            },
    {
        match self.active() {
            Some(s) => Some(s.clone()),
            None => None,
        }
    }

    /// Shows the connection `conn_id` if it has a snapshot; changes nothing
    /// if it has none.
    pub fn set_active(&mut self, conn_id: String) -> (shown: bool)
        ensures
            shown == old(self)@.connections.contains_key(conn_id@),
            final(self)@ == (if shown {
                UiCacheView { active_connection: Some(conn_id@), ..old(self)@ }
            } else {
                old(self)@
            }),
            final(self)@.inv(),
    {
        proof {
            use_type_invariant(&*self);
        }
        if self.connections.contains(&conn_id) {
            self.active_connection = Some(conn_id);
            true
        } else {
            false
        }
    }

    /// Puts `snapshot` under its connection id, in place of the snapshot
    /// that stood there if there was one, and shows its connection if none
    /// was shown.
    pub fn insert_snapshot(&mut self, snapshot: ConnectionCache)
        ensures
            final(self)@ == old(self)@.with_snapshot(snapshot@),
            final(self)@.inv(),
    {
        proof {
            use_type_invariant(&*self);
        }
        let mut me = UiCache::new();
        std::mem::swap(self, &mut me);
        let UiCache { accounts, connections, active_connection, updated } = me;
        let mut connections = connections;
        let active_connection = match active_connection {
            Some(id) => Some(id),
            None => Some(snapshot.connection_id.clone()),
        };
        connections.insert(snapshot);
        *self = UiCache { accounts, connections, active_connection, updated };
    }

    /// Drops the snapshot of the connection `conn_id`. If that connection
    /// was shown, another one that has a snapshot is shown in its place,
    /// none if there is no snapshot left.
    pub fn remove_connection(&mut self, conn_id: &String) -> (removed: bool)
        ensures
            removed == old(self)@.connections.contains_key(conn_id@),
            final(self)@.connections == old(self)@.connections.remove(conn_id@),
            final(self)@.accounts == old(self)@.accounts,
            final(self)@.updated == old(self)@.updated,
            old(self)@.active_connection != Some(conn_id@) ==> final(self)@.active_connection
                == old(self)@.active_connection,
            !removed ==> final(self)@ == old(self)@,
            final(self)@.inv(),
    {
        proof {
            use_type_invariant(&*self);
        }
        let mut me = UiCache::new();
        std::mem::swap(self, &mut me);
        let UiCache { accounts, connections, active_connection, updated } = me;
        let mut connections = connections;
        let ghost before = connections@;
        let removed = connections.remove(conn_id).is_some();
        proof {
            if !removed {
                assert(connections@ =~= before);
            }
        }
        let active_connection = UiCache::elect(&connections, active_connection);
        *self = UiCache { accounts, connections, active_connection, updated };
        removed
    }

    /// Adds `message` to the pending messages of the connection that is
    /// shown, after those that are there. With no connection shown the
    /// message is dropped.
    pub fn add_pending_message(&mut self, message: Message) -> (added: bool)
        ensures
            added == old(self)@.active_connection is Some,
            final(self)@ == old(self)@.with_pending(message@),
            final(self)@.inv(),
    {
        proof {
            use_type_invariant(&*self);
        }
        let mut me = UiCache::new();
        std::mem::swap(self, &mut me);
        let UiCache { accounts, connections, active_connection, updated } = me;
        let mut connections = connections;
        let ghost before = connections@;
        let added = match &active_connection {
            Some(id) => match connections.remove(id) {
                Some(snapshot) => {
                    let mut snapshot = snapshot;
                    let ghost pending = each_view(snapshot.pending_messages@);
                    snapshot.pending_messages.push(message);
                    proof {
                        assert(each_view(snapshot.pending_messages@) =~= pending.push(message@));
                    }
                    connections.upsert(snapshot);
                    proof {
                        assert(connections@ =~= before.insert(
                            id@,
                            ConnectionCacheView {
                                pending_messages: before[id@].pending_messages.push(message@),
                                ..before[id@]
                            },
                        ));
                    }
                    true
                },
                None => false,
            },
            None => false,
        };
        *self = UiCache { accounts, connections, active_connection, updated };
        added
    }

    /// One pass of bringing the snapshots up to date at time `now`.
    ///
    /// `listed` holds the ids of the connections that the backend lists,
    /// `candidates` what was fetched of them. Each candidate is brought in:
    /// where its connection has a snapshot, the snapshot is refreshed;
    /// where it has none, the candidate becomes its snapshot. A listed
    /// connection without a candidate keeps the snapshot it has. Then every
    /// snapshot of a connection that is not listed is dropped. The
    /// connection that is shown stays shown if it still has a snapshot;
    /// if not, one that has a snapshot is shown.
    pub fn apply_tick(&mut self, listed: &Vec<String>, candidates: SnapshotTable, now: i64)
        ensures
            final(self)@.connections == reconciled(
                old(self)@.connections,
                each_view(listed@),
                candidates@,
            ),
            final(self)@.accounts == old(self)@.accounts,
            final(self)@.updated == Some(now),
            old(self)@.selection_kept_by(final(self)@),
            final(self)@.inv(),
    {
        proof {
            use_type_invariant(&*self);
        }
        let mut me = UiCache::new();
        std::mem::swap(self, &mut me);
        let UiCache { accounts, connections, active_connection, updated } = me;
        let mut connections = connections;
        connections.absorb(candidates);
        connections.retain_listed(listed);
        let active_connection = UiCache::elect(&connections, active_connection);
        *self = UiCache { accounts, connections, active_connection, updated: Some(now) };
    }
}

impl Clone for UiCache {
    fn clone(&self) -> (c: Self)
        ensures
            c@ == self@,
    {
        proof {
            use_type_invariant(self);
        }
        assert(clone_keeps_view::<Account>());
        let connections = self.connections.clone();
        UiCache {
            accounts: copy_each(&self.accounts),
            connections,
            active_connection: copy_opt_text(&self.active_connection),
            updated: self.updated,
        }
    }
}

impl Default for UiCache {
    fn default() -> (c: Self)
        ensures
            c@ == UiCacheView::empty(),
    {
        UiCache::new()
    }
}

} // verus!
