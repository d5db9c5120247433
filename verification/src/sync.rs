//! From what was fetched of a connection to its snapshot.

use vstd::prelude::*;
use crate::model::{
    Asset, ChannelState, ChannelStateView, ConnectionState, ConnectionStateView, Message,
    MessageView, Profile, ProfileView,
};
use crate::state::{ConnectionCache, ConnectionCacheView};
use crate::views::{clone_keeps_view, each_view, opt_view};

verus! {

/// Whether the fetch of one connection failed: the backend gave no state
/// for it, or the state names a current channel and the backend gave none.
pub open spec fn fetch_failed(
    state: Option<ConnectionStateView>,
    channel: Option<ChannelStateView>,
) -> bool {
    match state {
        Some(s) => s.current_channel is Some && channel is None,
        None => true,
    }
}

/// The snapshot that a fetch gives. Its current channel is the fetched
/// channel where the state names one. Its assets are those of the
/// connection with those of the current channel laid over them, so that
/// under an id that both have the channel's asset stands. Its current user
/// is the fetched profile where the state names a user. It has no pending
/// message and no ping.
pub open spec fn candidate_of(
    connection_id: Seq<char>,
    account_index: usize,
    state: ConnectionStateView,
    channel: Option<ChannelStateView>,
    current_user: Option<ProfileView>,
) -> ConnectionCacheView {
    let current_channel = if state.current_channel is Some {
        channel
    } else {
        None
    };
    ConnectionCacheView {
        connection_id,
        account_index,
        status: state.status,
        channels: state.channels,
        current_channel,
        assets: match current_channel {
            Some(c) => state.global_assets.union_prefer_right(c.assets),
            None => state.global_assets,
        },
        global_users: state.global_users,
        current_user: if state.current_user_id is Some {
            current_user
        } else {
            None
        },
        pending_messages: Seq::empty(),
        last_ping: None,
    }
}

/// Puts together the snapshot of one connection from what was fetched of
/// it: its state, its current channel and the profile of its user. A
/// connection whose fetch failed gets no snapshot.
pub fn assemble_candidate(
    connection_id: String,
    account_index: usize,
    state: Option<ConnectionState>,
    channel: Option<ChannelState>,
    current_user: Option<Profile>,
) -> (r: Option<ConnectionCache>)
    ensures
        match r {
            Some(c) => state is Some && !fetch_failed(opt_view(state), opt_view(channel)) && c@
                == candidate_of(
                connection_id@,
                account_index,
                state.unwrap()@,
                opt_view(channel),
                opt_view(current_user),
            ),
            None => fetch_failed(opt_view(state), opt_view(channel)),
        },
{
    let state = match state {
        Some(s) => s,
        None => {
            return None;
        },
    };
    let current_channel = if state.current_channel.is_some() {
        match channel {
            Some(c) => Some(c),
            None => {
                return None;
            },
        }
    } else {
        None
    };
    let mut assets = state.global_assets;
    match &current_channel {
        Some(c) => {
            assert(clone_keeps_view::<Asset>());
            assets.overlay(&c.assets);
        },
        None => {},
    }
    let current_user = if state.current_user_id.is_some() {
        current_user
    } else {
        None
    };
    let pending_messages: Vec<Message> = Vec::new();
    proof {
        assert(each_view(pending_messages@) =~= Seq::<MessageView>::empty());
    }
    Some(
        ConnectionCache {
            connection_id,
            account_index,
            status: state.status,
            channels: state.channels,
            current_channel,
            assets,
            global_users: state.global_users,
            current_user,
            pending_messages,
            last_ping: None,
        },
    )
}

} // verus!
