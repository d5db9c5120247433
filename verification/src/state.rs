//! The snapshot of one connection, and the settings of the window.

use vstd::prelude::*;
use crate::ledger::{
    confirmed_by, lemma_reconcile_idempotent, lemma_reconcile_membership, reconcile_pending,
    still_pending,
};
use crate::model::{
    Asset, AssetView, ChannelState, ChannelStateView, ConnectionStatus, Message, MessageView,
    Profile, ProfileView,
};
use crate::strmap::StrMap;
use crate::text::copy_texts;
use crate::views::{copy_each, each_view, opt_view};

verus! {

/// The snapshot of one connection, as the user interface reads it.
/// `assets` holds the assets of the connection and those of the current
/// channel; `pending_messages` holds, in the order in which they were sent,
/// the messages that were sent from here and that the channel's history
/// does not show yet. `last_ping` counts milliseconds since the Unix epoch.
#[derive(Debug)]
pub struct ConnectionCache {
    pub connection_id: String,
    pub account_index: usize,
    pub status: ConnectionStatus,
    pub channels: Vec<String>,
    pub current_channel: Option<ChannelState>,
    pub assets: StrMap<Asset>,
    pub global_users: StrMap<Profile>,
    pub current_user: Option<Profile>,
    pub pending_messages: Vec<Message>,
    pub last_ping: Option<i64>,
}

/// A snapshot, as mathematics.
pub struct ConnectionCacheView {
    pub connection_id: Seq<char>,
    pub account_index: usize,
    pub status: ConnectionStatus,
    pub channels: Seq<Seq<char>>,
    pub current_channel: Option<ChannelStateView>,
    pub assets: Map<Seq<char>, AssetView>,
    pub global_users: Map<Seq<char>, ProfileView>,
    pub current_user: Option<ProfileView>,
    pub pending_messages: Seq<MessageView>,
    pub last_ping: Option<i64>,
}

impl View for ConnectionCache {
    type V = ConnectionCacheView;

    open spec fn view(&self) -> ConnectionCacheView {
        ConnectionCacheView {
            connection_id: self.connection_id@,
            account_index: self.account_index,
            status: self.status,
            channels: each_view(self.channels@),
            current_channel: opt_view(self.current_channel),
            assets: self.assets@,
            global_users: self.global_users@,
            current_user: opt_view(self.current_user),
            pending_messages: each_view(self.pending_messages@),
            last_ping: self.last_ping,
        }
    }
}

impl Clone for ConnectionCache {
    fn clone(&self) -> (r: Self)
        ensures
            r@ == self@,
    {
        let current_channel = match &self.current_channel {
            Some(channel) => Some(channel.clone()),
            None => None,
        };
        let current_user = match &self.current_user {
            Some(user) => Some(user.clone()),
            None => None,
        };
        ConnectionCache {
            connection_id: self.connection_id.clone(),
            account_index: self.account_index,
            status: self.status,
            channels: copy_texts(&self.channels),
            current_channel,
            assets: self.assets.copy(),
            global_users: self.global_users.copy(),
            current_user,
            pending_messages: copy_each(&self.pending_messages),
            last_ping: self.last_ping,
        }
    }
}

impl Default for ConnectionCache {
    fn default() -> (s: Self)
        ensures
            s@ == ConnectionCacheView::blank(),
    {
        let s = ConnectionCache {
            connection_id: String::new(),
            account_index: 0,
            status: ConnectionStatus::Disconnected,
            channels: Vec::new(),
            current_channel: None,
            assets: StrMap::new(),
            global_users: StrMap::new(),
            current_user: None,
            pending_messages: Vec::new(),
            last_ping: None,
        };
        proof {
            assert(s@.channels =~= Seq::<Seq<char>>::empty());
            assert(s@.pending_messages =~= Seq::<MessageView>::empty());
            assert(s@.assets =~= Map::<Seq<char>, AssetView>::empty());
            assert(s@.global_users =~= Map::<Seq<char>, ProfileView>::empty());
        }
        s
    }
}

impl ConnectionCacheView {
    /// The snapshot with the empty id: disconnected, of the first account,
    /// with nothing else in it.
    pub open spec fn blank() -> ConnectionCacheView {
        ConnectionCacheView {
            connection_id: Seq::empty(),
            account_index: 0,
            status: ConnectionStatus::Disconnected,
            channels: Seq::empty(),
            current_channel: None,
            assets: Map::empty(),
            global_users: Map::empty(),
            current_user: None,
            pending_messages: Seq::empty(),
            last_ping: None,
        }
    }

    /// The snapshot of a connection of which nothing is known yet but its
    /// id, its account and, where the account names one, its user:
    /// connecting, with no channels, assets, users or pending messages.
    pub open spec fn placeholder(
        connection_id: Seq<char>,
        account_index: usize,
        user_id: Option<Seq<char>>,
    ) -> ConnectionCacheView {
        ConnectionCacheView {
            connection_id,
            account_index,
            status: ConnectionStatus::Connecting,
            channels: Seq::empty(),
            current_channel: None,
            assets: Map::empty(),
            global_users: Map::empty(),
            current_user: match user_id {
                Some(id) => Some(ProfileView::with_id(id)),
                None => None,
            },
            pending_messages: Seq::empty(),
            last_ping: None,
        }
    }

    /// The number of messages that the chat shows for the connection: those
    /// of the current channel and the pending ones.
    pub open spec fn shown_messages(self) -> nat {
        self.pending_messages.len() + (match self.current_channel {
            Some(channel) => channel.messages.len(),
            None => 0,
        })
    }

    /// What a snapshot becomes when a fresh fetch of its connection comes
    /// in. The fetch gives the state, the channels, the current channel,
    /// the assets, the users and the current user. The snapshot keeps its
    /// id, its account and its last ping, and of its pending messages those
    /// that the history of the fetched channel does not confirm; with no
    /// channel fetched, all of them.
    pub open spec fn refreshed(self, fresh: ConnectionCacheView) -> ConnectionCacheView {
        ConnectionCacheView {
            connection_id: self.connection_id,
            account_index: self.account_index,
            status: fresh.status,
            channels: fresh.channels,
            current_channel: fresh.current_channel,
            assets: fresh.assets,
            global_users: fresh.global_users,
            current_user: fresh.current_user,
            pending_messages: match fresh.current_channel {
                Some(channel) => still_pending(self.pending_messages, channel.messages),
                None => self.pending_messages,
            },
            last_ping: self.last_ping,
        }
    }
}

/// Refreshing a snapshot twice from one fetch gives what refreshing it once
/// gives. A pending message that the fetched history confirmed is gone
/// after the first refresh, and the second one does not bring it back.
pub proof fn lemma_refresh_idempotent(snapshot: ConnectionCacheView, fresh: ConnectionCacheView)
    ensures
        snapshot.refreshed(fresh).refreshed(fresh) == snapshot.refreshed(fresh),
{
    match fresh.current_channel {
        Some(channel) => {
            lemma_reconcile_idempotent(snapshot.pending_messages, channel.messages);
        },
        None => {},
    }
}

/// After a refresh the pending messages are those of before that the
/// fetched history does not confirm: none that it confirms is left, and
/// none that it does not confirm is lost.
pub proof fn lemma_refresh_pending(
    snapshot: ConnectionCacheView,
    fresh: ConnectionCacheView,
    message: MessageView,
)
    requires
        fresh.current_channel is Some,
    ensures
        snapshot.refreshed(fresh).pending_messages.contains(message) <==> (
        snapshot.pending_messages.contains(message) && !confirmed_by(
            fresh.current_channel.unwrap().messages,
            message,
        )),
{
    lemma_reconcile_membership(
        snapshot.pending_messages,
        fresh.current_channel.unwrap().messages,
        message,
    );
}

impl ConnectionCache {
    /// The snapshot that stands for a connection until the first fetch.
    pub fn placeholder(connection_id: String, account_index: usize, user_id: Option<String>) -> (s:
        Self)
        ensures
            s@ == ConnectionCacheView::placeholder(connection_id@, account_index, opt_view(user_id)),
    {
        let current_user = match user_id {
            Some(id) => Some(Profile::with_id(id)),
            None => None,
        };
        let s = ConnectionCache {
            connection_id,
            account_index,
            status: ConnectionStatus::Connecting,
            channels: Vec::new(),
            current_channel: None,
            assets: StrMap::new(),
            global_users: StrMap::new(),
            current_user,
            pending_messages: Vec::new(),
            last_ping: None,
        };
        proof {
            assert(s@.channels =~= Seq::<Seq<char>>::empty());
            assert(s@.pending_messages =~= Seq::<MessageView>::empty());
            assert(s@.assets =~= Map::<Seq<char>, AssetView>::empty());
            assert(s@.global_users =~= Map::<Seq<char>, ProfileView>::empty());
        }
        s
    }

    /// Brings a fresh fetch into this snapshot.
    pub fn refresh(self, fresh: ConnectionCache) -> (r: Self)
        ensures
            r@ == self@.refreshed(fresh@),
    {
        let pending = match &fresh.current_channel {
            Some(channel) => reconcile_pending(self.pending_messages, &channel.messages),
            None => self.pending_messages,
        };
        ConnectionCache {
            connection_id: self.connection_id,
            account_index: self.account_index,
            status: fresh.status,
            channels: fresh.channels,
            current_channel: fresh.current_channel,
            assets: fresh.assets,
            global_users: fresh.global_users,
            current_user: fresh.current_user,
            pending_messages: pending,
            last_ping: self.last_ping,
        }
    }
}

/// Which panels of the window are open.
#[derive(Clone, Copy, Debug, PartialEq, Eq)]
pub struct Panels {
    pub accounts: bool,
    pub channels: bool,
    pub users: bool,
    pub chat: bool,
    pub input: bool,
    pub settings: bool,
}

impl Default for Panels {
    /// No panel open.
    fn default() -> (p: Self)
        ensures
            p == (Panels {
                accounts: false,
                channels: false,
                users: false,
                chat: false,
                input: false,
                settings: false,
            }),
    {
        Panels {
            accounts: false,
            channels: false,
            users: false,
            chat: false,
            input: false,
            settings: false,
        }
    }
}

impl Panels {
    /// The panels with which the window opens: all but the settings.
    pub fn at_start() -> (p: Self)
        ensures
            p == (Panels {
                accounts: true,
                channels: true,
                users: true,
                chat: true,
                input: true,
                settings: false,
            }),
    {
        Panels { accounts: true, channels: true, users: true, chat: true, input: true, settings: false }
    }
}

/// The kinds of media that a message can embed.
#[derive(Clone, Copy, Debug, PartialEq, Eq, Structural)]
pub enum Media {
    Image,
    Video,
    Audio,
}

/// How the chat is shown. `last_message_count` is the number of messages
/// that were shown last; `embed_generation` counts how often all embeds
/// were closed at once.
#[derive(Clone, Copy, Debug, PartialEq, Eq)]
pub struct ChatSettings {
    pub autoscroll: bool,
    pub auto_embed_images: bool,
    pub auto_embed_videos: bool,
    pub auto_embed_audio: bool,
    pub auto_embed_emotes: bool,
    pub auto_embed_stickers: bool,
    pub last_message_count: usize,
    pub embed_generation: usize,
    pub unembed_override: bool,
}

impl Default for ChatSettings {
    fn default() -> (s: Self)
        ensures
            s == (ChatSettings {
                autoscroll: true,
                auto_embed_images: true,
                auto_embed_videos: false,
                auto_embed_audio: false,
                auto_embed_emotes: true,
                auto_embed_stickers: true,
                last_message_count: 0,
                embed_generation: 0,
                unembed_override: false,
            }),
    {
        ChatSettings {
            autoscroll: true,
            auto_embed_images: true,
            auto_embed_videos: false,
            auto_embed_audio: false,
            auto_embed_emotes: true,
            auto_embed_stickers: true,
            last_message_count: 0,
            embed_generation: 0,
            unembed_override: false,
        }
    }
}

impl ChatSettings {
    /// Whether the chat is to scroll to its end now that it shows
    /// `message_count` messages: only when it scrolls by itself and shows
    /// more messages than it did last.
    pub fn should_scroll(&self, message_count: usize) -> (r: bool)
        ensures
            r == (self.autoscroll && message_count > self.last_message_count),
    {
        self.autoscroll && message_count > self.last_message_count
    }

    /// Whether media of this kind is embedded where the user has not said
    /// otherwise for the single piece: never once all embeds were closed,
    /// else as set for the kind.
    pub fn embeds(&self, media: Media) -> (r: bool)
        ensures
            r == (!self.unembed_override && match media {
                Media::Image => self.auto_embed_images,
                Media::Video => self.auto_embed_videos,
                Media::Audio => self.auto_embed_audio,
            }),
    {
        if self.unembed_override {
            false
        } else {
            match media {
                Media::Image => self.auto_embed_images,
                Media::Video => self.auto_embed_videos,
                Media::Audio => self.auto_embed_audio,
            }
        }
    }

    /// Closes all embeds at once.
    pub fn unembed_all(&mut self)
        requires
            old(self).embed_generation < usize::MAX,
        ensures
            *final(self) == (ChatSettings {
                embed_generation: (old(self).embed_generation + 1) as usize,
                unembed_override: true,
                ..*old(self)
            }),
    {
        self.embed_generation += 1;
        self.unembed_override = true;
    }
}

impl ConnectionCache {
    /// The number of messages that the chat shows for this connection:
    /// those of the current channel and the pending ones. A number that
    /// does not fit is cut to the largest that does.
    pub fn message_count(&self) -> (n: usize)
        ensures
            n == vstd::math::min(usize::MAX as int, self@.shown_messages() as int),
    {
        let confirmed = match &self.current_channel {
            Some(channel) => channel.messages.len(),
            None => 0,
        };
        confirmed.saturating_add(self.pending_messages.len())
    }
}

} // verus!
