//! The traffic of one connection as a single window shows it: chat log,
//! channels and users, kept up to date event by event.

use vstd::prelude::*;
use crate::lifecycle::ProtocolKind;
use crate::model::{
    copy_fragments, Channel, ChannelView, FragmentView, Message, MessageFragment, MessageView, Profile,
    ProfileView,
};
use crate::retain::{lemma_retaining_end, lemma_retaining_start, lemma_retaining_step, retaining};
use crate::text::{contains_text, copy_opt_text, copy_texts, is_text, same_text};
use crate::views::{clone_keeps_view, copy_each, each_view, opt_view};

verus! {

/// One line of the chat log: a message as it came in, with the channel it
/// came in on, the name of its sender and what was known of the sender
/// then. `timestamp` counts milliseconds since the Unix epoch.
#[derive(Debug)]
pub struct ChatEventWrapper {
    pub channel_id: Option<String>,
    pub timestamp: i64,
    pub sender: String,
    pub message_preview: Vec<MessageFragment>,
    pub profile: Option<Profile>,
}

/// A line of the chat log, as mathematics.
pub struct ChatEventView {
    pub channel_id: Option<Seq<char>>,
    pub timestamp: i64,
    pub sender: Seq<char>,
    pub message_preview: Seq<FragmentView>,
    pub profile: Option<ProfileView>,
}

impl View for ChatEventWrapper {
    type V = ChatEventView;

    open spec fn view(&self) -> ChatEventView {
        ChatEventView {
            channel_id: opt_view(self.channel_id),
            timestamp: self.timestamp,
            sender: self.sender@,
            message_preview: each_view(self.message_preview@),
            profile: opt_view(self.profile),
        }
    }
}

impl Clone for ChatEventWrapper {
    fn clone(&self) -> (r: Self)
        ensures
            r@ == self@,
    {
        ChatEventWrapper {
            channel_id: copy_opt_text(&self.channel_id),
            timestamp: self.timestamp,
            sender: self.sender.clone(),
            message_preview: copy_fragments(&self.message_preview),
            profile: match &self.profile {
                Some(profile) => Some(profile.clone()),
                None => None,
            },
        }
    }
}

/// What a connection reports, as far as the feed reads it.
#[derive(Debug)]
pub enum FeedEvent {
    /// A message came in.
    Message { channel: Option<String>, message: Message },
    /// A channel appeared.
    ChannelNew { channel: Channel },
    /// The channel `channel_id` is now `new_channel`.
    ChannelUpdate { channel_id: String, new_channel: Channel },
    /// The channel `channel_id` is gone.
    ChannelRemove { channel_id: String },
    /// No channel is left.
    ChannelClearList,
    /// A user came online.
    UserNew { user: Profile },
    /// The user `user_id` is now `new_user`.
    UserUpdate { user_id: String, new_user: Profile },
    /// The user `user_id` went offline.
    UserRemove { user_id: String },
    /// No user is online.
    UserClearList,
    /// Anything else.
    Other,
}

/// A report of a connection, as mathematics.
pub enum FeedEventView {
    Message { channel: Option<Seq<char>>, message: MessageView },
    ChannelNew { channel: ChannelView },
    ChannelUpdate { channel_id: Seq<char>, new_channel: ChannelView },
    ChannelRemove { channel_id: Seq<char> },
    ChannelClearList,
    UserNew { user: ProfileView },
    UserUpdate { user_id: Seq<char>, new_user: ProfileView },
    UserRemove { user_id: Seq<char> },
    UserClearList,
    Other,
}

impl View for FeedEvent {
    type V = FeedEventView;

    open spec fn view(&self) -> FeedEventView {
        match *self {
            FeedEvent::Message { channel, message } => FeedEventView::Message {
                channel: opt_view(channel),
                message: message@,
            },
            FeedEvent::ChannelNew { channel } => FeedEventView::ChannelNew { channel: channel@ },
            FeedEvent::ChannelUpdate { channel_id, new_channel } => FeedEventView::ChannelUpdate {
                channel_id: channel_id@,
                new_channel: new_channel@,
            },
            FeedEvent::ChannelRemove { channel_id } => FeedEventView::ChannelRemove {
                channel_id: channel_id@,
            },
            FeedEvent::ChannelClearList => FeedEventView::ChannelClearList,
            FeedEvent::UserNew { user } => FeedEventView::UserNew { user: user@ },
            FeedEvent::UserUpdate { user_id, new_user } => FeedEventView::UserUpdate {
                user_id: user_id@,
                new_user: new_user@,
            },
            FeedEvent::UserRemove { user_id } => FeedEventView::UserRemove { user_id: user_id@ },
            FeedEvent::UserClearList => FeedEventView::UserClearList,
            FeedEvent::Other => FeedEventView::Other,
        }
    }
}

/// What the window shows of one connection's traffic: the chat log, the
/// channels, the channel that is shown and the users that are online.
#[derive(Debug)]
pub struct Feed {
    pub chat_log: Vec<ChatEventWrapper>,
    pub channels: Vec<String>,
    pub current_channel: Option<String>,
    pub online_users: Vec<Profile>,
}

/// A feed, as mathematics.
pub struct FeedView {
    pub chat_log: Seq<ChatEventView>,
    pub channels: Seq<Seq<char>>,
    pub current_channel: Option<Seq<char>>,
    pub online_users: Seq<ProfileView>,
}

impl View for Feed {
    type V = FeedView;

    open spec fn view(&self) -> FeedView {
        FeedView {
            chat_log: each_view(self.chat_log@),
            channels: each_view(self.channels@),
            current_channel: opt_view(self.current_channel),
            online_users: each_view(self.online_users@),
        }
    }
}

impl Clone for Feed {
    fn clone(&self) -> (r: Self)
        ensures
            r@ == self@,
    {
        assert(clone_keeps_view::<ChatEventWrapper>());
        assert(clone_keeps_view::<Profile>());
        Feed {
            chat_log: copy_each(&self.chat_log),
            channels: copy_texts(&self.channels),
            current_channel: copy_opt_text(&self.current_channel),
            online_users: copy_each(&self.online_users),
        }
    }
}

/// The least timestamp that is taken for a time: a message with a smaller
/// one is taken to carry none and is logged with the time it came in.
pub const EARLIEST_TIMESTAMP: i64 = 1_000_000;

/// Whether `i` is the place of the first user with the id `id`.
pub open spec fn is_first_with_id(users: Seq<ProfileView>, id: Seq<char>, i: int) -> bool {
    &&& 0 <= i < users.len()
    &&& users[i].id == Some(id)
    &&& forall|j: int| 0 <= j < i ==> (#[trigger] users[j]).id != Some(id)
}

/// The place of the first user with the id `id`, if there is one.
pub open spec fn first_with_id(users: Seq<ProfileView>, id: Seq<char>) -> Option<int> {
    if exists|i: int| is_first_with_id(users, id, i) {
        Some(choose|i: int| is_first_with_id(users, id, i))
    } else {
        None
    }
}

/// The channels other than `id`, in their order.
pub open spec fn channels_without(channels: Seq<Seq<char>>, id: Seq<char>) -> Seq<Seq<char>> {
    channels.filter(|c: Seq<char>| c != id)
}

/// The users other than the one with the id `id`, in their order.
pub open spec fn users_without(users: Seq<ProfileView>, id: Seq<char>) -> Seq<ProfileView> {
    users.filter(|u: ProfileView| u.id != Some(id))
}

/// The log line for a message that came in at the time `now`, with
/// `users` online.
pub open spec fn log_line(
    channel_id: Option<Seq<char>>,
    message: MessageView,
    users: Seq<ProfileView>,
    now: i64,
) -> ChatEventView {
    ChatEventView {
        channel_id,
        timestamp: if message.timestamp < EARLIEST_TIMESTAMP {
            now
        } else {
            message.timestamp
        },
        sender: match message.sender_id {
            Some(id) => id,
            None => "[System]"@,
        },
        message_preview: message.content,
        profile: match message.sender_id {
            Some(id) => match first_with_id(users, id) {
                Some(i) => Some(users[i]),
                None => None,
            },
            None => None,
        },
    }
}

impl FeedView {
    /// The feed with nothing in it.
    pub open spec fn empty() -> FeedView {
        FeedView {
            chat_log: Seq::empty(),
            channels: Seq::empty(),
            current_channel: None,
            online_users: Seq::empty(),
        }
    }

    /// The feed after `event` came in at the time `now`.
    pub open spec fn after(self, event: FeedEventView, now: i64) -> FeedView {
        match event {
            FeedEventView::Message { channel, message } => FeedView {
                chat_log: self.chat_log.push(log_line(channel, message, self.online_users, now)),
                ..self
            },
            FeedEventView::ChannelNew { channel } => FeedView {
                channels: self.channels.push(channel.id),
                current_channel: match self.current_channel {
                    Some(c) => Some(c),
                    None => Some(channel.id),
                },
                ..self
            },
            FeedEventView::ChannelUpdate { channel_id, new_channel } => {
                let others = channels_without(self.channels, channel_id);
                FeedView {
                    channels: if others.contains(new_channel.id) {
                        others
                    } else {
                        others.push(new_channel.id)
                    },
                    current_channel: if self.current_channel == Some(channel_id) {
                        Some(new_channel.id)
                    } else {
                        self.current_channel
                    },
                    ..self
                }
            },
            FeedEventView::ChannelRemove { channel_id } => FeedView {
                channels: channels_without(self.channels, channel_id),
                ..self
            },
            FeedEventView::ChannelClearList => FeedView {
                channels: Seq::empty(),
                current_channel: None,
                ..self
            },
            FeedEventView::UserNew { user } => FeedView {
                online_users: self.online_users.push(user),
                ..self
            },
            FeedEventView::UserUpdate { user_id, new_user } => FeedView {
                online_users: match first_with_id(self.online_users, user_id) {
                    Some(i) => self.online_users.update(i, new_user),
                    None => self.online_users,
                },
                ..self
            },
            FeedEventView::UserRemove { user_id } => FeedView {
                online_users: users_without(self.online_users, user_id),
                ..self
            },
            FeedEventView::UserClearList => FeedView { online_users: Seq::empty(), ..self },
            FeedEventView::Other => self,
        }
    }
}

/// Whether a log line is shown while the channel `active` is: a line
/// without a channel always is, and every line is while no channel is
/// shown.
pub open spec fn line_shown(line: ChatEventView, active: Option<Seq<char>>) -> bool {
    match (active, line.channel_id) {
        (Some(a), Some(c)) => a == c,
        _ => true,
    }
}

/// Takes every string with the characters of `id` out of `list`.
fn remove_text(list: &mut Vec<String>, id: &String)
    ensures
        each_view(final(list)@) == channels_without(each_view(old(list)@), id@),
{
    let ghost orig = each_view(list@);
    let ghost keep = |c: Seq<char>| c != id@;
    let mut i: usize = 0;
    let ghost mut done: int = 0;
    proof {
        lemma_retaining_start(orig, keep);
    }
    while i < list.len()
        invariant
            keep == (|c: Seq<char>| c != id@),
            retaining(orig, each_view(list@), i as int, done, keep),
        decreases list.len() - i,
    {
        let ghost before = each_view(list@);
        proof {
            lemma_retaining_step(orig, before, i as int, done, keep);
        }
        if same_text(&list[i], id) {
            list.remove(i);
            proof {
                assert(each_view(list@) =~= before.remove(i as int));
            }
        } else {
            i += 1;
        }
        proof {
            done = done + 1;
        }
    }
    proof {
        lemma_retaining_end(orig, each_view(list@), i as int, done, keep);
    }
}

/// Whether the profile has the id `id`.
fn has_id(user: &Profile, id: &String) -> (r: bool)
    ensures
        r == (user@.id == Some(id@)),
{
    match &user.id {
        Some(own) => same_text(own, id),
        None => false,
    }
}

/// Takes every user with the id `id` out of `users`.
fn remove_user(users: &mut Vec<Profile>, id: &String)
    ensures
        each_view(final(users)@) == users_without(each_view(old(users)@), id@),
{
    let ghost orig = each_view(users@);
    let ghost keep = |u: ProfileView| u.id != Some(id@);
    let mut i: usize = 0;
    let ghost mut done: int = 0;
    proof {
        lemma_retaining_start(orig, keep);
    }
    while i < users.len()
        invariant
            keep == (|u: ProfileView| u.id != Some(id@)),
            retaining(orig, each_view(users@), i as int, done, keep),
        decreases users.len() - i,
    {
        let ghost before = each_view(users@);
        proof {
            lemma_retaining_step(orig, before, i as int, done, keep);
        }
        if has_id(&users[i], id) {
            users.remove(i);
            proof {
                assert(each_view(users@) =~= before.remove(i as int));
            }
        } else {
            i += 1;
        }
        proof {
            done = done + 1;
        }
    }
    proof {
        lemma_retaining_end(orig, each_view(users@), i as int, done, keep);
    }
}

/// The place of the first user with the id `id`.
fn find_user(users: &Vec<Profile>, id: &String) -> (r: Option<usize>)
    ensures
        match r {
            Some(i) => first_with_id(each_view(users@), id@) == Some(i as int) && i < users@.len(),
            None => first_with_id(each_view(users@), id@) is None,
        },
{
    let ghost all = each_view(users@);
    let mut i: usize = 0;
    while i < users.len()
        invariant
            i <= users.len(),
            all == each_view(users@),
            forall|j: int| 0 <= j < i ==> (#[trigger] all[j]).id != Some(id@),
        decreases users.len() - i,
    {
        if has_id(&users[i], id) {
            proof {
                assert(is_first_with_id(all, id@, i as int));
                let c = choose|c: int| is_first_with_id(all, id@, c);
                assert(c == i) by {
                    if c < i {
                        assert(all[c].id != Some(id@));
                    } else if c > i {
                        assert(all[i as int].id != Some(id@));
                    }
                }
            }
            return Some(i);
        }
        i += 1;
    }
    proof {
        assert forall|c: int| !is_first_with_id(all, id@, c) by {
            if 0 <= c < all.len() {
                assert(all[c].id != Some(id@));
            }
        }
    }
    None
}

impl Feed {
    /// The feed with nothing in it.
    pub fn new() -> (f: Self)
        ensures
            f@ == FeedView::empty(),
    {
        let f = Feed {
            chat_log: Vec::new(),
            channels: Vec::new(),
            current_channel: None,
            online_users: Vec::new(),
        };
        proof {
            assert(f@.chat_log =~= Seq::<ChatEventView>::empty());
            assert(f@.channels =~= Seq::<Seq<char>>::empty());
            assert(f@.online_users =~= Seq::<ProfileView>::empty());
        }
        f
    }

    /// Takes in what a connection reported at the time `now`.
    pub fn apply(&mut self, event: FeedEvent, now: i64)
        ensures
            final(self)@ == old(self)@.after(event@, now),
    {
        let ghost before = self@;
        match event {
            FeedEvent::Message { channel, message } => {
                let timestamp = if message.timestamp < EARLIEST_TIMESTAMP {
                    now
                } else {
                    message.timestamp
                };
                let profile = match &message.sender_id {
                    Some(id) => match find_user(&self.online_users, id) {
                        Some(i) => Some(self.online_users[i].clone()),
                        None => None,
                    },
                    None => None,
                };
                let sender = match &message.sender_id {
                    Some(id) => id.clone(),
                    None => "[System]".to_owned(),
                };
                let line = ChatEventWrapper {
                    channel_id: channel,
                    timestamp,
                    sender,
                    message_preview: message.content,
                    profile,
                };
                proof {
                    assert(line@ == log_line(
                        opt_view(channel),
                        message@,
                        before.online_users,
                        now,
                    ));
                }
                self.chat_log.push(line);
                proof {
                    assert(each_view(self.chat_log@) =~= before.chat_log.push(line@));
                }
            },
            FeedEvent::ChannelNew { channel } => {
                if self.current_channel.is_none() {
                    self.current_channel = Some(channel.id.clone());
                }
                self.channels.push(channel.id);
                proof {
                    assert(each_view(self.channels@) =~= before.channels.push(channel.id@));
                }
            },
            FeedEvent::ChannelUpdate { channel_id, new_channel } => {
                remove_text(&mut self.channels, &channel_id);
                let renamed = match &self.current_channel {
                    Some(current) => same_text(current, &channel_id),
                    None => false,
                };
                if renamed {
                    self.current_channel = Some(new_channel.id.clone());
                }
                if !contains_text(&self.channels, &new_channel.id) {
                    let ghost others = each_view(self.channels@);
                    self.channels.push(new_channel.id);
                    proof {
                        assert(each_view(self.channels@) =~= others.push(new_channel.id@));
                    }
                }
            },
            FeedEvent::ChannelRemove { channel_id } => {
                remove_text(&mut self.channels, &channel_id);
            },
            FeedEvent::ChannelClearList => {
                self.channels.clear();
                self.current_channel = None;
                proof {
                    assert(each_view(self.channels@) =~= Seq::<Seq<char>>::empty());
                }
            },
            FeedEvent::UserNew { user } => {
                self.online_users.push(user);
                proof {
                    assert(each_view(self.online_users@) =~= before.online_users.push(user@));
                }
            },
            FeedEvent::UserUpdate { user_id, new_user } => {
                match find_user(&self.online_users, &user_id) {
                    Some(i) => {
                        self.online_users.push(new_user);
                        self.online_users.swap_remove(i);
                        proof {
                            assert(each_view(self.online_users@) =~= before.online_users.update(
                                i as int,
                                new_user@,
                            ));
                        }
                    },
                    None => {},
                }
            },
            FeedEvent::UserRemove { user_id } => {
                remove_user(&mut self.online_users, &user_id);
            },
            FeedEvent::UserClearList => {
                self.online_users.clear();
                proof {
                    assert(each_view(self.online_users@) =~= Seq::<ProfileView>::empty());
                }
            },
            FeedEvent::Other => {},
        }
    }
}

impl ChatEventWrapper {
    /// Whether this line is shown while the channel `active` is.
    pub fn is_shown(&self, active: &Option<String>) -> (r: bool)
        ensures
            r == line_shown(self@, opt_view(*active)),
    {
        match (active, &self.channel_id) {
            (Some(a), Some(c)) => same_text(a, c),
            _ => true,
        }
    }
}

/// The kind of connection that a protocol name stands for where the name
/// is taken by the letter: "sockchat" and "Mock" are known.
pub open spec fn kind_of_exact(name: Seq<char>) -> ProtocolKind {
    if name == "sockchat"@ {
        ProtocolKind::Sockchat
    } else if name == "Mock"@ {
        ProtocolKind::Mock
    } else {
        ProtocolKind::Unsupported
    }
}

/// The kind of connection that a protocol name stands for, taken by the
/// letter.
pub fn classify_exact(name: &String) -> (kind: ProtocolKind)
    ensures
        kind == kind_of_exact(name@),
{
    if is_text(name, "sockchat") {
        ProtocolKind::Sockchat
    } else if is_text(name, "Mock") {
        ProtocolKind::Mock
    } else {
        ProtocolKind::Unsupported
    }
}

} // verus!
