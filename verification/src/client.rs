//! The client: connecting and disconnecting accounts, choosing where a
//! message or a channel switch goes.

use vstd::prelude::*;
use crate::bindings::Bindings;
use crate::cache::{UiCache, UiCacheView};
use crate::lifecycle::{
    classify_protocol, declared_user_id, find_user_id, kind_of_protocol, ProtocolKind,
};
use crate::model::{
    Account, FragmentView, Message, MessageFragment, MessageStatus, MessageType, MessageView,
};
use crate::state::{ConnectionCache, ConnectionCacheView};
use crate::strmap::StrMap;
use crate::text::{is_blank, text_is_blank};
use crate::views::{each_view, opt_view};

verus! {

/// How an attempt to connect an account went on.
#[derive(Clone, Copy, Debug, PartialEq, Eq, Structural)]
pub enum ConnectOutcome {
    /// The account is bound to a connection already: nothing was done.
    AlreadyBound,
    /// The account was bound, and a connection of this kind is to be opened
    /// for it.
    Started(ProtocolKind),
}

/// What is left to do when an account was disconnected: the connection is
/// to be told to disconnect, if one was open, and the backend is to forget
/// the connection id.
#[derive(Debug)]
pub struct Teardown<C> {
    pub connection_id: String,
    pub connection: Option<C>,
}

/// The wish to switch a connection to a channel.
#[derive(Debug, PartialEq)]
pub struct ChannelSwitch {
    pub connection_id: String,
    pub channel_id: String,
}

/// Why nothing could be sent.
#[derive(Clone, Copy, Debug, PartialEq, Eq, Structural)]
pub enum DispatchError {
    /// No connection is shown.
    NoActiveConnection,
    /// The connection that is shown has no open connection behind it.
    NotConnected,
}

/// A message on its way out: the connection and the channel it goes to.
#[derive(Debug)]
pub struct Outgoing {
    pub connection_id: String,
    pub channel_id: Option<String>,
    pub message: Message,
}

/// The message that the user of a connection sends when they send `text`
/// at the time `now`: it has no id yet.
pub open spec fn outgoing_message(sender_id: Option<Seq<char>>, text: Seq<char>, now: i64) -> MessageView {
    MessageView {
        id: None,
        sender_id,
        content: seq![FragmentView::Text(text)],
        timestamp: now,
        message_type: MessageType::CurrentUser,
        status: MessageStatus::Sent,
    }
}

/// The id of the user of a connection, as far as its snapshot knows it.
pub open spec fn sender_of(snapshot: ConnectionCacheView) -> Option<Seq<char>> {
    match snapshot.current_user {
        Some(user) => user.id,
        None => None,
    }
}

/// The id of the channel that a connection is in, as far as its snapshot
/// knows it.
pub open spec fn channel_of(snapshot: ConnectionCacheView) -> Option<Seq<char>> {
    match snapshot.current_channel {
        Some(channel) => Some(channel.channel.id),
        None => None,
    }
}

/// The core of the chat client: the cache that the user interface reads,
/// the open connections by connection id, and the bindings of accounts to
/// connections. `C` is whatever stands for an open connection.
#[derive(Debug)]
pub struct ChatClient<C> {
    pub cache: UiCache,
    pub connections: StrMap<C>,
    pub account_to_conn: Bindings,
}

impl<C> ChatClient<C> {
    /// A client with the given accounts, no connection and no binding.
    pub fn new(accounts: Vec<Account>) -> (client: Self)
        ensures
            client.cache@ == (UiCacheView { accounts: each_view(accounts@), ..UiCacheView::empty() }),
            client.connections.map() == Map::<Seq<char>, C>::empty(),
            client.account_to_conn@ == Map::<usize, Seq<char>>::empty(),
    {
        ChatClient {
            cache: UiCache::with_accounts(accounts),
            connections: StrMap::new(),
            account_to_conn: Bindings::new(),
        }
    }

    /// The name of the program.
    pub fn name() -> (name: &'static str)
        ensures
            name@ == "Taitsu"@,
    {
        "Taitsu"
    }

    /// A copy of the snapshot of the connection that is shown.
    pub fn active_connection(&self) -> (r: Option<ConnectionCache>)
        ensures
            self.cache@.inv(),
            match r {
                Some(s) => self.cache@.active_snapshot() == Some(s@),
                None => self.cache@.active_connection is None,
            },
    {
        self.cache.active_snapshot()
    }

    /// Shows the connection `conn_id` if it has a snapshot; changes nothing
    /// if it has none.
    pub fn set_active_connection(&mut self, conn_id: String)
        ensures
            final(self).cache@ == (if old(self).cache@.connections.contains_key(conn_id@) {
                UiCacheView { active_connection: Some(conn_id@), ..old(self).cache@ }
            } else {
                old(self).cache@
            }),
            final(self).connections == old(self).connections,
            final(self).account_to_conn == old(self).account_to_conn,
    {
        self.cache.set_active(conn_id);
    }

    /// The accounts that are to be connected at the start: the positions
    /// of those marked for it, in rising order.
    pub fn auto_connect_accounts(&self) -> (r: Vec<usize>)
        ensures
            forall|j: int|
                0 <= j < r@.len() ==> (#[trigger] r@[j]) < self.cache@.accounts.len()
                    && self.cache@.accounts[r@[j] as int].autoconnect,
            forall|i: int|
                0 <= i < self.cache@.accounts.len() && (#[trigger] self.cache@.accounts[i]).autoconnect
                    ==> r@.contains(i as usize),
            forall|j: int, k: int| 0 <= j < k < r@.len() ==> r@[j] < r@[k],
    {
        let accounts = self.cache.accounts();
        let mut r: Vec<usize> = Vec::new();
        let mut i: usize = 0;
        while i < accounts.len()
            invariant
                i <= accounts.len(),
                each_view(accounts@) == self.cache@.accounts,
                forall|j: int|
                    0 <= j < r@.len() ==> (#[trigger] r@[j]) < i && accounts@[r@[j] as int].autoconnect,
                forall|m: int|
                    0 <= m < i && (#[trigger] accounts@[m]).autoconnect ==> r@.contains(m as usize),
                forall|j: int, k: int| 0 <= j < k < r@.len() ==> r@[j] < r@[k],
            decreases accounts.len() - i,
        {
            if accounts[i].autoconnect {
                let ghost before = r@;
                r.push(i);
                proof {
                    assert forall|m: int|
                        0 <= m < i + 1 && (#[trigger] accounts@[m]).autoconnect implies r@.contains(
                        m as usize,
                    ) by {
                        if m < i {
                            let j = choose|j: int| 0 <= j < before.len() && before[j] == m as usize;
                            assert(r@[j] == m as usize);
                        } else {
                            assert(r@[before.len() as int] == m as usize);
                        }
                    }
                }
            }
            i += 1;
        }
        r
    }

    /// Whether the account at `account_idx` is bound to a connection.
    pub fn is_bound(&self, account_idx: usize) -> (r: bool)
        ensures
            r == self.account_to_conn@.contains_key(account_idx),
    {
        self.account_to_conn.contains(account_idx)
    }

    /// Starts the connection of an account, once the backend has given the
    /// connection its id `conn_id`.
    ///
    /// An account that is bound already is left alone. Otherwise the
    /// account is bound to the connection, and the cache gets a snapshot
    /// that stands for the connection until the first fetch: connecting,
    /// with the user that the credentials name. The connection is shown if
    /// none was. The result tells which kind of connection to open.
    pub fn connect_account(&mut self, account_idx: usize, account: &Account, conn_id: String) -> (r:
        ConnectOutcome)
        ensures
            final(self).connections == old(self).connections,
            old(self).account_to_conn@.contains_key(account_idx) ==> {
                &&& r == ConnectOutcome::AlreadyBound
                &&& final(self).cache@ == old(self).cache@
                &&& final(self).account_to_conn@ == old(self).account_to_conn@
            },
            !old(self).account_to_conn@.contains_key(account_idx) ==> {
                &&& r == ConnectOutcome::Started(kind_of_protocol(account@.protocol_name))
                &&& final(self).account_to_conn@ == old(self).account_to_conn@.insert(
                    account_idx,
                    conn_id@,
                )
                &&& final(self).cache@ == old(self).cache@.with_snapshot(
                    ConnectionCacheView::placeholder(
                        conn_id@,
                        account_idx,
                        declared_user_id(account@.auth),
                    ),
                )
            },
            final(self).cache@.inv(),
    {
        if self.account_to_conn.contains(account_idx) {
            proof {
                use_type_invariant(&self.cache);
                self.cache.lemma_inv();
            }
            return ConnectOutcome::AlreadyBound;
        }
        self.account_to_conn.bind(account_idx, conn_id.clone());
        let user_id = find_user_id(&account.auth);
        self.cache.insert_snapshot(ConnectionCache::placeholder(conn_id, account_idx, user_id));
        ConnectOutcome::Started(classify_protocol(account.protocol_name.as_str()))
    }

    /// Takes in the connection that was opened for `conn_id`, in place of
    /// the one that stood under that id if there was one.
    pub fn register_connection(&mut self, conn_id: String, connection: C) -> (previous: Option<C>)
        ensures
            final(self).connections.map() == old(self).connections.map().insert(
                conn_id@,
                connection,
            ),
            previous == (if old(self).connections.map().contains_key(conn_id@) {
                Some(old(self).connections.map()[conn_id@])
            } else {
                None
            }),
            final(self).cache == old(self).cache,
            final(self).account_to_conn == old(self).account_to_conn,
    {
        self.connections.insert(conn_id, connection)
    }

    /// Disconnects an account. An account that is not bound is left alone,
    /// and nothing changes. Otherwise its binding, its open connection and
    /// the snapshot of its connection are taken out; if that connection was
    /// shown, another one that has a snapshot is shown in its place.
    pub fn disconnect_account(&mut self, account_idx: usize) -> (r: Option<Teardown<C>>)
        ensures
            final(self).cache@.inv(),
            !old(self).account_to_conn@.contains_key(account_idx) ==> r is None && *final(self)
                == *old(self),
            match r {
                None => !old(self).account_to_conn@.contains_key(account_idx),
                Some(teardown) => {
                    let id = teardown.connection_id@;
                    &&& old(self).account_to_conn@.contains_key(account_idx)
                    &&& id == old(self).account_to_conn@[account_idx]
                    &&& teardown.connection == (if old(self).connections.map().contains_key(id) {
                        Some(old(self).connections.map()[id])
                    } else {
                        None
                    })
                    &&& final(self).account_to_conn@ == old(self).account_to_conn@.remove(
                        account_idx,
                    )
                    &&& final(self).connections.map() == old(self).connections.map().remove(id)
                    &&& final(self).cache@.connections == old(self).cache@.connections.remove(id)
                    &&& final(self).cache@.accounts == old(self).cache@.accounts
                    &&& final(self).cache@.updated == old(self).cache@.updated
                    &&& old(self).cache@.active_connection != Some(id) ==> final(self).cache@.active_connection == old(self).cache@.active_connection
                },
            },
    {
        if !self.account_to_conn.contains(account_idx) {
            proof {
                use_type_invariant(&self.cache);
                self.cache.lemma_inv();
            }
            return None;
        }
        let connection_id = match self.account_to_conn.unbind(account_idx) {
            Some(id) => id,
            None => {
                return None;
            },
        };
        let connection = self.connections.remove(&connection_id);
        self.cache.remove_connection(&connection_id);
        Some(Teardown { connection_id, connection })
    }

    /// The wish to switch the connection that is shown to the channel
    /// `channel_id`. With no connection shown there is none.
    pub fn sync_selection(&self, channel_id: String) -> (r: Option<ChannelSwitch>)
        ensures
            match r {
                Some(switch) => self.cache@.active_connection == Some(switch.connection_id@)
                    && switch.channel_id == channel_id,
                None => self.cache@.active_connection is None,
            },
    {
        match self.cache.active_connection_id() {
            Some(id) => Some(ChannelSwitch { connection_id: id.clone(), channel_id }),
            None => None,
        }
    }

    /// The open connection to send on: that of the connection that is
    /// shown.
    pub fn send_event(&self) -> (r: Result<&C, DispatchError>)
        ensures
            match r {
                Ok(connection) => {
                    &&& self.cache@.active_connection is Some
                    &&& self.connections.map().contains_key(self.cache@.active_connection.unwrap())
                    &&& *connection == self.connections.map()[self.cache@.active_connection.unwrap()]
                },
                Err(DispatchError::NoActiveConnection) => self.cache@.active_connection is None,
                Err(DispatchError::NotConnected) => {
                    &&& self.cache@.active_connection is Some
                    &&& !self.connections.map().contains_key(
                        self.cache@.active_connection.unwrap(),
                    )
                },
            },
    {
        match self.cache.active_connection_id() {
            Some(id) => match self.connections.get(id) {
                Some(connection) => Ok(connection),
                None => Err(DispatchError::NotConnected),
            },
            None => Err(DispatchError::NoActiveConnection),
        }
    }

    /// Adds `message` to the pending messages of the connection that is
    /// shown. With no connection shown the message is dropped.
    pub fn add_pending_message(&mut self, message: Message)
        ensures
            final(self).cache@ == old(self).cache@.with_pending(message@),
            final(self).cache@.inv(),
            final(self).connections == old(self).connections,
            final(self).account_to_conn == old(self).account_to_conn,
    {
        self.cache.add_pending_message(message);
    }

    /// Sends `text` at the time `now` as the user of the connection that is
    /// shown: the message is added to the pending messages of that
    /// connection, and a copy is handed back with the connection and the
    /// channel that it goes to. With no connection shown nothing happens.
    pub fn post_message(&mut self, text: String, now: i64) -> (r: Option<Outgoing>)
        ensures
            final(self).connections == old(self).connections,
            final(self).account_to_conn == old(self).account_to_conn,
            final(self).cache@.inv(),
            match old(self).cache@.active_snapshot() {
                Some(snapshot) => {
                    &&& r is Some
                    &&& r.unwrap().connection_id@ == snapshot.connection_id
                    &&& opt_view(r.unwrap().channel_id) == channel_of(snapshot)
                    &&& r.unwrap().message@ == outgoing_message(sender_of(snapshot), text@, now)
                    &&& final(self).cache@ == old(self).cache@.with_pending(r.unwrap().message@)
                },
                None => r is None && final(self).cache@ == old(self).cache@,
            },
    {
        let (connection_id, channel_id, sender_id) = match self.cache.active() {
            Some(snapshot) => {
                let channel_id = match &snapshot.current_channel {
                    Some(channel) => Some(channel.channel.id.clone()),
                    None => None,
                };
                let sender_id = match &snapshot.current_user {
                    Some(user) => match &user.id {
                        Some(id) => Some(id.clone()),
                        None => None,
                    },
                    None => None,
                };
                (snapshot.connection_id.clone(), channel_id, sender_id)
            },
            None => {
                return None;
            },
        };
        let mut content: Vec<MessageFragment> = Vec::new();
        content.push(MessageFragment::Text(text));
        proof {
            assert(each_view(content@) =~= seq![FragmentView::Text(text@)]);
        }
        let message = Message {
            id: None,
            sender_id,
            content,
            timestamp: now,
            message_type: MessageType::CurrentUser,
            status: MessageStatus::Sent,
        };
        let copy = message.clone();
        self.cache.add_pending_message(message);
        Some(Outgoing { connection_id, channel_id, message: copy })
    }

    /// Sends `text` at the time `now`, unless it holds nothing but white
    /// space: see `post_message`. A text of white space is dropped, and
    /// nothing changes.
    pub fn submit_message(&mut self, text: String, now: i64) -> (r: Option<Outgoing>)
        ensures
            final(self).connections == old(self).connections,
            final(self).account_to_conn == old(self).account_to_conn,
            final(self).cache@.inv(),
            r is Some <==> !is_blank(text@) && old(self).cache@.active_connection is Some,
            match r {
                Some(outgoing) => {
                    let snapshot = old(self).cache@.active_snapshot().unwrap();
                    &&& outgoing.connection_id@ == snapshot.connection_id
                    &&& opt_view(outgoing.channel_id) == channel_of(snapshot)
                    &&& outgoing.message@ == outgoing_message(sender_of(snapshot), text@, now)
                    &&& final(self).cache@ == old(self).cache@.with_pending(outgoing.message@)
                },
                None => final(self).cache@ == old(self).cache@,
            },
    {
        if text_is_blank(text.as_str()) {
            proof {
                use_type_invariant(&self.cache);
                self.cache.lemma_inv();
            }
            None
        } else {
            self.post_message(text, now)
        }
    }
}

} // verus!
