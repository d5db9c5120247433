//! Names, labels and grouping of what the window shows.

use vstd::prelude::*;
use vstd::string::StringExecFns;
use crate::model::{
    Account, AccountView, Asset, AssetView, ConnectionStatus, Message, MessageType, MessageView,
    Profile, ProfileView,
};
use crate::order::{place_for, rising};
use crate::state::{ConnectionCache, ConnectionCacheView};
use crate::strmap::{first_keys, StrMap};
use crate::text::{lowercase_of, same_opt_text, to_lowercase};
use crate::views::{clone_keeps_view, each_view, opt_view};

verus! {

impl ProfileView {
    /// The name under which a user is shown: the display name, else the
    /// user name, else none.
    pub open spec fn known_name(self) -> Option<Seq<char>> {
        match self.display_name {
            Some(name) => Some(name),
            None => self.username,
        }
    }

    /// The name under which a user is shown, "Unknown" where none is known.
    pub open spec fn shown_name(self) -> Seq<char> {
        match self.known_name() {
            Some(name) => name,
            None => "Unknown"@,
        }
    }
}

impl Profile {
    /// The name under which the user is shown.
    pub fn shown_name(&self) -> (name: String)
        ensures
            name@ == self@.shown_name(),
    {
        match &self.display_name {
            Some(name) => name.clone(),
            None => match &self.username {
                Some(name) => name.clone(),
                None => "Unknown".to_owned(),
            },
        }
    }
}

/// The name over a message: that of its sender where the sender is known
/// and has a name, else the sender's id, else "Unknown".
pub open spec fn sender_label(message: MessageView, sender: Option<ProfileView>) -> Seq<char> {
    let known = match sender {
        Some(profile) => profile.known_name(),
        None => None,
    };
    match known {
        Some(name) => name,
        None => match message.sender_id {
            Some(id) => id,
            None => "Unknown"@,
        },
    }
}

impl Message {
    /// The name over this message, given what is known of its sender.
    pub fn sender_label(&self, sender: Option<&Profile>) -> (label: String)
        ensures
            label@ == sender_label(
                self@,
                match sender {
                    Some(p) => Some(p@),
                    None => None,
                },
            ),
    {
        let known = match sender {
            Some(profile) => match &profile.display_name {
                Some(name) => Some(name),
                None => match &profile.username {
                    Some(name) => Some(name),
                    None => None,
                },
            },
            None => None,
        };
        match known {
            Some(name) => name.clone(),
            None => match &self.sender_id {
                Some(id) => id.clone(),
                None => "Unknown".to_owned(),
            },
        }
    }

    /// Whether this message goes on under the heading of the message
    /// before it, which had the sender `last_sender` and the kind
    /// `last_kind`: only where it has the same sender and the same kind.
    /// After a message from the server or a note the next one starts anew,
    /// and where `strict` is set, so does every message from the server
    /// and every note.
    pub fn continues(
        &self,
        last_sender: &Option<String>,
        last_kind: Option<MessageType>,
        strict: bool,
    ) -> (r: bool)
        ensures
            r == continues_group(self@, opt_view(*last_sender), last_kind, strict),
    {
        let detached = match self.message_type {
            MessageType::Server => true,
            MessageType::Meta => true,
            _ => false,
        };
        let broken = match last_kind {
            Some(kind) => kind != self.message_type || detached,
            None => false,
        };
        same_opt_text(last_sender, &self.sender_id) && !broken && !(strict && detached)
    }
}

/// Whether a message goes on under the heading of the message before it.
pub open spec fn continues_group(
    message: MessageView,
    last_sender: Option<Seq<char>>,
    last_kind: Option<MessageType>,
    strict: bool,
) -> bool {
    let detached = message.message_type == MessageType::Server || message.message_type
        == MessageType::Meta;
    &&& last_sender == message.sender_id
    &&& match last_kind {
        Some(kind) => kind == message.message_type && !detached,
        None => true,
    }
    &&& !(strict && detached)
}

/// The sign that stands for a connection's state on its tab.
pub open spec fn status_sign(status: ConnectionStatus) -> Seq<char> {
    match status {
        ConnectionStatus::Connected => "= w="@,
        ConnectionStatus::Connecting => "o ^o"@,
        ConnectionStatus::Disconnected => ". _."@,
    }
}

impl ConnectionStatus {
    /// The sign that stands for this state on a connection's tab.
    pub fn sign(&self) -> (s: &'static str)
        ensures
            s@ == status_sign(*self),
    {
        match self {
            ConnectionStatus::Connected => "= w=",
            ConnectionStatus::Connecting => "o ^o",
            ConnectionStatus::Disconnected => ". _.",
        }
    }
}

/// The name under which a channel is listed: "General" for the channel
/// with the empty id, else the id.
pub open spec fn channel_label(id: Seq<char>) -> Seq<char> {
    if id.len() == 0 {
        "General"@
    } else {
        id
    }
}

/// The name under which the channel `id` is listed.
pub fn channel_label_of(id: &String) -> (label: String)
    ensures
        label@ == channel_label(id@),
{
    if id.as_str().is_empty() {
        "General".to_owned()
    } else {
        id.clone()
    }
}

/// The name of an account: the user name of its profile, else the name
/// of its protocol.
pub open spec fn account_name(account: AccountView) -> Seq<char> {
    match account.private_profile {
        Some(profile) => match profile.username {
            Some(name) => name,
            None => account.protocol_name,
        },
        None => account.protocol_name,
    }
}

/// The line under which an account is listed: its name, and its protocol
/// in brackets.
pub open spec fn account_label(account: AccountView) -> Seq<char> {
    account_name(account) + " ("@ + account.protocol_name + ")"@
}

impl Account {
    /// The line under which this account is listed.
    pub fn label(&self) -> (label: String)
        ensures
            label@ == account_label(self@),
    {
        let name = match &self.private_profile {
            Some(profile) => match &profile.username {
                Some(name) => name,
                None => &self.protocol_name,
            },
            None => &self.protocol_name,
        };
        let mut label = name.clone();
        label.append(" (");
        label.append(self.protocol_name.as_str());
        label.append(")");
        label
    }
}

impl ConnectionCacheView {
    /// The users that the chat knows of: those of the connection with
    /// those of the current channel laid over them.
    pub open spec fn all_users(self) -> Map<Seq<char>, ProfileView> {
        match self.current_channel {
            Some(channel) => self.global_users.union_prefer_right(channel.users),
            None => self.global_users,
        }
    }
}

impl ConnectionCache {
    /// The users that the chat knows of.
    pub fn all_users(&self) -> (users: StrMap<Profile>)
        ensures
            users@ == self@.all_users(),
    {
        assert(clone_keeps_view::<Profile>());
        let mut users = self.global_users.copy();
        match &self.current_channel {
            Some(channel) => {
                users.overlay(&channel.users);
            },
            None => {},
        }
        users
    }
}

/// The text by which a user is put in order: the user name in lower case,
/// the empty name where the user has none.
pub open spec fn order_key(user: ProfileView) -> Seq<char> {
    lowercase_of(
        match user.username {
            Some(name) => name,
            None => Seq::empty(),
        },
    )
}

/// The id and the view of the value of each entry of a list.
pub open spec fn entry_views<T: View>(entries: Seq<(String, T)>) -> Seq<(Seq<char>, T::V)> {
    entries.map_values(|e: (String, T)| (e.0@, e.1@))
}

/// Whether the list holds the entries of the map: each id of the map once,
/// with its value, and nothing else.
pub open spec fn lists_all<T>(entries: Seq<(Seq<char>, T)>, all: Map<Seq<char>, T>) -> bool {
    &&& forall|a: int, b: int|
        0 <= a < b < entries.len() ==> (#[trigger] entries[a]).0 != (#[trigger] entries[b]).0
    &&& forall|a: int|
        0 <= a < entries.len() ==> all.contains_key((#[trigger] entries[a]).0)
            && all[entries[a].0] == entries[a].1
    &&& forall|id: Seq<char>| #[trigger]
        all.contains_key(id) ==> exists|a: int|
            0 <= a < entries.len() && (#[trigger] entries[a]).0 == id
}

/// A list that holds the entries of a map holds, with one more entry put
/// in at any place, the entries of the map with that entry.
proof fn lemma_lists_one_more<T>(
    entries: Seq<(Seq<char>, T)>,
    all: Map<Seq<char>, T>,
    at: int,
    id: Seq<char>,
    value: T,
)
    requires
        lists_all(entries, all),
        0 <= at <= entries.len(),
        !all.contains_key(id),
    ensures
        lists_all(entries.insert(at, (id, value)), all.insert(id, value)),
{
    let more = entries.insert(at, (id, value));
    let both = all.insert(id, value);
    assert forall|a: int| 0 <= a < more.len() implies both.contains_key((#[trigger] more[a]).0)
        && both[more[a].0] == more[a].1 && (a != at ==> more[a].0 != id) by {
        if a < at {
            assert(more[a] == entries[a]);
        } else if a > at {
            assert(more[a] == entries[a - 1]);
        }
    }
    assert forall|a: int, b: int| 0 <= a < b < more.len() implies (#[trigger] more[a]).0 != (
    #[trigger] more[b]).0 by {
        let a0 = if a < at { a } else { a - 1 };
        let b0 = if b < at { b } else { b - 1 };
        if a != at && b != at {
            assert(more[a] == entries[a0] && more[b] == entries[b0]);
        }
    }
    assert forall|k: Seq<char>| #[trigger] both.contains_key(k) implies exists|a: int|
        0 <= a < more.len() && (#[trigger] more[a]).0 == k by {
        if k == id {
            assert(more[at].0 == k);
        } else {
            let a = choose|a: int| 0 <= a < entries.len() && (#[trigger] entries[a]).0 == k;
            if a < at {
                assert(more[a].0 == k);
            } else {
                assert(more[a + 1].0 == k);
            }
        }
    }
}

/// The key of each user of a list.
pub open spec fn user_keys(entries: Seq<(Seq<char>, ProfileView)>) -> Seq<Seq<char>> {
    entries.map_values(|e: (Seq<char>, ProfileView)| order_key(e.1))
}

/// The users of a map in the order in which the users panel shows them:
/// by their user names in lower case. Users with one name in lower case
/// stand together, in no stated order.
pub fn users_in_order(users: &StrMap<Profile>) -> (r: Vec<(String, Profile)>)
    ensures
        lists_all(entry_views(r@), users@),
        rising(user_keys(entry_views(r@))),
{
    let mut r: Vec<(String, Profile)> = Vec::new();
    let mut keys: Vec<String> = Vec::new();
    let n = users.len();
    let mut i: usize = 0;
    proof {
        assert(users@.restrict(first_keys(users.keys(), 0)) =~= Map::<
            Seq<char>,
            ProfileView,
        >::empty());
        assert(each_view(keys@) =~= user_keys(entry_views(r@)));
    }
    while i < n
        invariant
            i <= n,
            n == users.keys().len(),
            users.shape(),
            each_view(keys@) == user_keys(entry_views(r@)),
            rising(each_view(keys@)),
            lists_all(entry_views(r@), users@.restrict(first_keys(users.keys(), i as int))),
        decreases n - i,
    {
        let id = users.key_at(i).clone();
        let user = users.value_at(i).clone();
        let key = match &user.username {
            Some(name) => to_lowercase(name.as_str()),
            None => to_lowercase(""),
        };
        let ghost listed = entry_views(r@);
        let ghost seen = users@.restrict(first_keys(users.keys(), i as int));
        let ghost key_views = each_view(keys@);
        proof {
            reveal_strlit("");
            assert(""@ =~= Seq::<char>::empty());
            assert(key@ == order_key(user@));
            assert(user@ == users@[id@]);
        }
        let at = place_for(&keys, &key);
        proof {
            assert(key_views.len() == listed.len());
            assert(!seen.contains_key(id@)) by {
                if seen.contains_key(id@) {
                    let j = choose|j: int|
                        0 <= j < i && j < users.keys().len() && #[trigger] users.keys()[j] == id@;
                    assert(users.keys()[i as int] == id@);
                }
            }
            lemma_lists_one_more(listed, seen, at as int, id@, user@);
            assert(first_keys(users.keys(), i + 1) =~= first_keys(users.keys(), i as int).insert(
                id@,
            ));
            assert(users@.restrict(first_keys(users.keys(), i + 1)) =~= seen.insert(id@, user@));
        }
        r.insert(at, (id, user));
        keys.insert(at, key);
        proof {
            assert(entry_views(r@) =~= listed.insert(at as int, (id@, user@)));
            assert(each_view(keys@) =~= key_views.insert(at as int, key@));
            assert(user_keys(entry_views(r@)) =~= key_views.insert(at as int, key@));
        }
        i += 1;
    }
    proof {
        assert(users@.restrict(first_keys(users.keys(), n as int)) =~= users@);
    }
    r
}

impl ConnectionCache {
    /// The users that the chat knows of, in the order in which the users
    /// panel shows them.
    pub fn users_in_order(&self) -> (r: Vec<(String, Profile)>)
        ensures
            lists_all(entry_views(r@), self@.all_users()),
            rising(user_keys(entry_views(r@))),
    {
        let all = self.all_users();
        users_in_order(&all)
    }
}

/// The kinds of asset.
#[derive(Clone, Copy, Debug, PartialEq, Eq, Structural)]
pub enum AssetKind {
    Emote,
    Sticker,
    Audio,
    Command,
}

impl AssetView {
    /// The kind of the asset.
    pub open spec fn kind(self) -> AssetKind {
        match self {
            AssetView::Emote { .. } => AssetKind::Emote,
            AssetView::Sticker { .. } => AssetKind::Sticker,
            AssetView::Audio { .. } => AssetKind::Audio,
            AssetView::Command { .. } => AssetKind::Command,
        }
    }

    /// The text that stands for the asset in a message.
    pub open spec fn pattern(self) -> Seq<char> {
        match self {
            AssetView::Emote { pattern, .. } => pattern,
            AssetView::Sticker { pattern, .. } => pattern,
            AssetView::Audio { pattern, .. } => pattern,
            AssetView::Command { pattern, .. } => pattern,
        }
    }
}

impl Asset {
    /// The kind of the asset.
    pub fn kind(&self) -> (kind: AssetKind)
        ensures
            kind == self@.kind(),
    {
        match self {
            Asset::Emote { .. } => AssetKind::Emote,
            Asset::Sticker { .. } => AssetKind::Sticker,
            Asset::Audio { .. } => AssetKind::Audio,
            Asset::Command { .. } => AssetKind::Command,
        }
    }

    /// The text that stands for the asset in a message.
    pub fn pattern(&self) -> (pattern: &String)
        ensures
            pattern@ == self@.pattern(),
    {
        match self {
            Asset::Emote { pattern, .. } => pattern,
            Asset::Sticker { pattern, .. } => pattern,
            Asset::Audio { pattern, .. } => pattern,
            Asset::Command { pattern, .. } => pattern,
        }
    }
}

/// The assets of one kind among those of a map.
pub open spec fn of_kind(all: Map<Seq<char>, AssetView>, kind: AssetKind) -> Map<
    Seq<char>,
    AssetView,
> {
    Map::new(
        |id: Seq<char>| all.contains_key(id) && all[id].kind() == kind,
        |id: Seq<char>| all[id],
    )
}

/// The pattern of each asset of a list.
pub open spec fn asset_patterns(entries: Seq<(Seq<char>, AssetView)>) -> Seq<Seq<char>> {
    entries.map_values(|e: (Seq<char>, AssetView)| e.1.pattern())
}

/// The assets of one kind in the order in which the asset picker shows
/// them: by their patterns. Assets with one pattern stand together, in no
/// stated order.
pub fn assets_in_order(assets: &StrMap<Asset>, kind: AssetKind) -> (r: Vec<(String, Asset)>)
    ensures
        lists_all(entry_views(r@), of_kind(assets@, kind)),
        rising(asset_patterns(entry_views(r@))),
{
    let mut r: Vec<(String, Asset)> = Vec::new();
    let mut keys: Vec<String> = Vec::new();
    let n = assets.len();
    let mut i: usize = 0;
    proof {
        assert(of_kind(assets@.restrict(first_keys(assets.keys(), 0)), kind) =~= Map::<
            Seq<char>,
            AssetView,
        >::empty());
        assert(each_view(keys@) =~= asset_patterns(entry_views(r@)));
    }
    while i < n
        invariant
            i <= n,
            n == assets.keys().len(),
            assets.shape(),
            each_view(keys@) == asset_patterns(entry_views(r@)),
            rising(each_view(keys@)),
            lists_all(
                entry_views(r@),
                of_kind(assets@.restrict(first_keys(assets.keys(), i as int)), kind),
            ),
        decreases n - i,
    {
        let ghost listed = entry_views(r@);
        let ghost seen = assets@.restrict(first_keys(assets.keys(), i as int));
        let ghost key_views = each_view(keys@);
        let ghost id_view = assets.keys()[i as int];
        proof {
            assert(first_keys(assets.keys(), i + 1) =~= first_keys(assets.keys(), i as int).insert(
                id_view,
            ));
            assert(!seen.contains_key(id_view)) by {
                if seen.contains_key(id_view) {
                    let j = choose|j: int|
                        0 <= j < i && j < assets.keys().len() && #[trigger] assets.keys()[j]
                            == id_view;
                    assert(assets.keys()[i as int] == id_view);
                }
            }
        }
        if assets.value_at(i).kind() == kind {
            let id = assets.key_at(i).clone();
            let asset = assets.value_at(i).clone();
            let key = asset.pattern().clone();
            proof {
                assert(asset@ == assets@[id@]);
            }
            let at = place_for(&keys, &key);
            proof {
                assert(key_views.len() == listed.len());
                lemma_lists_one_more(listed, of_kind(seen, kind), at as int, id@, asset@);
                assert(of_kind(assets@.restrict(first_keys(assets.keys(), i + 1)), kind)
                    =~= of_kind(seen, kind).insert(id@, asset@));
            }
            r.insert(at, (id, asset));
            keys.insert(at, key);
            proof {
                assert(entry_views(r@) =~= listed.insert(at as int, (id@, asset@)));
                assert(each_view(keys@) =~= key_views.insert(at as int, key@));
                assert(asset_patterns(entry_views(r@)) =~= key_views.insert(at as int, key@));
            }
        } else {
            proof {
                assert(assets@[id_view] == assets.map()[id_view]@);
                assert(of_kind(assets@.restrict(first_keys(assets.keys(), i + 1)), kind)
                    =~= of_kind(seen, kind));
            }
        }
        i += 1;
    }
    proof {
        assert(assets@.restrict(first_keys(assets.keys(), n as int)) =~= assets@);
    }
    r
}

} // verus!
