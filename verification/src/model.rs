//! The values of a chat: messages, profiles, assets, channels, accounts.

use vstd::prelude::*;
use crate::strmap::StrMap;
use crate::text::{copy_opt_text, copy_texts, same_text};
use crate::views::{clone_keeps_view, copy_each, each_view, opt_view};

verus! {

/// Where a connection stands.
#[derive(Clone, Copy, Debug, PartialEq, Eq, Structural)]
pub enum ConnectionStatus {
    Disconnected,
    Connecting,
    Connected,
}

impl Default for ConnectionStatus {
    fn default() -> (s: Self)
        ensures
            s == ConnectionStatus::Disconnected,
    {
        ConnectionStatus::Disconnected
    }
}

/// Who a message comes from, as far as its display is concerned.
#[derive(Clone, Copy, Debug, PartialEq, Eq, Structural)]
pub enum MessageType {
    CurrentUser,
    Normal,
    Server,
    Meta,
}

/// How far a message has come on its way.
#[derive(Clone, Copy, Debug, PartialEq, Eq, Structural)]
pub enum MessageStatus {
    Sent,
    Delivered,
    Edited,
    Deleted,
    Failed,
}

/// Who provided an asset.
#[derive(Clone, Copy, Debug, PartialEq, Eq, Structural)]
pub enum AssetSource {
    User,
    Meta,
    Server,
}

/// The kind of a channel.
#[derive(Clone, Copy, Debug, PartialEq, Eq, Structural)]
pub enum ChannelType {
    Group,
    Direct,
    Broadcast,
}

impl Default for ChannelType {
    fn default() -> (t: Self)
        ensures
            t == ChannelType::Group,
    {
        ChannelType::Group
    }
}

/// One piece of a message's content.
#[derive(Debug, PartialEq)]
pub enum MessageFragment {
    Text(String),
    Image { url: String, mime: String },
    Video { url: String, mime: String },
    Audio { url: String, mime: String },
    Url(String),
    AssetId(String),
}

/// A fragment, as mathematics.
pub enum FragmentView {
    Text(Seq<char>),
    Image { url: Seq<char>, mime: Seq<char> },
    Video { url: Seq<char>, mime: Seq<char> },
    Audio { url: Seq<char>, mime: Seq<char> },
    Url(Seq<char>),
    AssetId(Seq<char>),
}

impl View for MessageFragment {
    type V = FragmentView;

    open spec fn view(&self) -> FragmentView {
        match *self {
            MessageFragment::Text(s) => FragmentView::Text(s@),
            MessageFragment::Image { url, mime } => FragmentView::Image { url: url@, mime: mime@ },
            MessageFragment::Video { url, mime } => FragmentView::Video { url: url@, mime: mime@ },
            MessageFragment::Audio { url, mime } => FragmentView::Audio { url: url@, mime: mime@ },
            MessageFragment::Url(s) => FragmentView::Url(s@),
            MessageFragment::AssetId(s) => FragmentView::AssetId(s@),
        }
    }
}

impl Clone for MessageFragment {
    fn clone(&self) -> (r: Self)
        ensures
            r@ == self@,
    {
        match self {
            MessageFragment::Text(s) => MessageFragment::Text(s.clone()),
            MessageFragment::Image { url, mime } => MessageFragment::Image {
                url: url.clone(),
                mime: mime.clone(),
            },
            MessageFragment::Video { url, mime } => MessageFragment::Video {
                url: url.clone(),
                mime: mime.clone(),
            },
            MessageFragment::Audio { url, mime } => MessageFragment::Audio {
                url: url.clone(),
                mime: mime.clone(),
            },
            MessageFragment::Url(s) => MessageFragment::Url(s.clone()),
            MessageFragment::AssetId(s) => MessageFragment::AssetId(s.clone()),
        }
    }
}

impl MessageFragment {
    /// Whether two fragments are of the same kind and hold the same text.
    pub fn same(&self, other: &MessageFragment) -> (r: bool)
        ensures
            r == (self@ == other@),
    {
        match (self, other) {
            (MessageFragment::Text(a), MessageFragment::Text(b)) => same_text(a, b),
            (
                MessageFragment::Image { url: u1, mime: m1 },
                MessageFragment::Image { url: u2, mime: m2 },
            ) => same_text(u1, u2) && same_text(m1, m2),
            (
                MessageFragment::Video { url: u1, mime: m1 },
                MessageFragment::Video { url: u2, mime: m2 },
            ) => same_text(u1, u2) && same_text(m1, m2),
            (
                MessageFragment::Audio { url: u1, mime: m1 },
                MessageFragment::Audio { url: u2, mime: m2 },
            ) => same_text(u1, u2) && same_text(m1, m2),
            (MessageFragment::Url(a), MessageFragment::Url(b)) => same_text(a, b),
            (MessageFragment::AssetId(a), MessageFragment::AssetId(b)) => same_text(a, b),
            _ => false,
        }
    }
}

/// A copy of a list of fragments.
pub fn copy_fragments(v: &Vec<MessageFragment>) -> (r: Vec<MessageFragment>)
    ensures
        each_view(r@) == each_view(v@),
{
    copy_each(v)
}

/// Whether two lists of fragments have the same length and agree fragment
/// by fragment.
pub fn same_fragments(a: &Vec<MessageFragment>, b: &Vec<MessageFragment>) -> (r: bool)
    ensures
        r == (each_view(a@) == each_view(b@)),
{
    if a.len() != b.len() {
        proof {
            assert(each_view(a@).len() != each_view(b@).len());
        }
        return false;
    }
    let mut i: usize = 0;
    while i < a.len()
        invariant
            i <= a.len(),
            a.len() == b.len(),
            forall|j: int| 0 <= j < i ==> each_view(a@)[j] == each_view(b@)[j],
        decreases a.len() - i,
    {
        if !a[i].same(&b[i]) {
            proof {
                assert(each_view(a@)[i as int] != each_view(b@)[i as int]);
            }
            return false;
        }
        i += 1;
    }
    proof {
        assert(each_view(a@) =~= each_view(b@));
    }
    true
}

/// A chat message. `timestamp` counts milliseconds since the Unix epoch.
#[derive(Debug, PartialEq)]
pub struct Message {
    pub id: Option<String>,
    pub sender_id: Option<String>,
    pub content: Vec<MessageFragment>,
    pub timestamp: i64,
    pub message_type: MessageType,
    pub status: MessageStatus,
}

/// A message, as mathematics.
pub struct MessageView {
    pub id: Option<Seq<char>>,
    pub sender_id: Option<Seq<char>>,
    pub content: Seq<FragmentView>,
    pub timestamp: i64,
    pub message_type: MessageType,
    pub status: MessageStatus,
}

impl View for Message {
    type V = MessageView;

    open spec fn view(&self) -> MessageView {
        MessageView {
            id: opt_view(self.id),
            sender_id: opt_view(self.sender_id),
            content: each_view(self.content@),
            timestamp: self.timestamp,
            message_type: self.message_type,
            status: self.status,
        }
    }
}

impl Clone for Message {
    fn clone(&self) -> (r: Self)
        ensures
            r@ == self@,
    {
        Message {
            id: copy_opt_text(&self.id),
            sender_id: copy_opt_text(&self.sender_id),
            content: copy_fragments(&self.content),
            timestamp: self.timestamp,
            message_type: self.message_type,
            status: self.status,
        }
    }
}

/// What is known of a user.
#[derive(Debug, PartialEq)]
pub struct Profile {
    pub id: Option<String>,
    pub username: Option<String>,
    pub display_name: Option<String>,
    pub color: Option<[u8; 4]>,
    pub picture: Option<String>,
}

/// A profile, as mathematics.
pub struct ProfileView {
    pub id: Option<Seq<char>>,
    pub username: Option<Seq<char>>,
    pub display_name: Option<Seq<char>>,
    pub color: Option<[u8; 4]>,
    pub picture: Option<Seq<char>>,
}

impl View for Profile {
    type V = ProfileView;

    open spec fn view(&self) -> ProfileView {
        ProfileView {
            id: opt_view(self.id),
            username: opt_view(self.username),
            display_name: opt_view(self.display_name),
            color: self.color,
            picture: opt_view(self.picture),
        }
    }
}

impl Clone for Profile {
    fn clone(&self) -> (r: Self)
        ensures
            r@ == self@,
    {
        Profile {
            id: copy_opt_text(&self.id),
            username: copy_opt_text(&self.username),
            display_name: copy_opt_text(&self.display_name),
            color: self.color,
            picture: copy_opt_text(&self.picture),
        }
    }
}

impl Default for Profile {
    fn default() -> (p: Self)
        ensures
            p@ == ProfileView::unknown(),
    {
        Profile { id: None, username: None, display_name: None, color: None, picture: None }
    }
}

impl ProfileView {
    /// The profile of which nothing is known.
    pub open spec fn unknown() -> ProfileView {
        ProfileView { id: None, username: None, display_name: None, color: None, picture: None }
    }

    /// The profile of which only the id is known.
    pub open spec fn with_id(id: Seq<char>) -> ProfileView {
        ProfileView { id: Some(id), username: None, display_name: None, color: None, picture: None }
    }
}

impl Profile {
    /// The profile of which only the id is known.
    pub fn with_id(id: String) -> (p: Self)
        ensures
            p@ == ProfileView::with_id(id@),
    {
        Profile { id: Some(id), username: None, display_name: None, color: None, picture: None }
    }
}

/// Something a message can refer to by id: an emote, a sticker, a sound or
/// a command.
#[derive(Debug, PartialEq)]
pub enum Asset {
    Emote { id: Option<String>, pattern: String, src: String, source: AssetSource },
    Sticker { id: Option<String>, pattern: String, src: String, source: AssetSource },
    Audio { id: Option<String>, pattern: String, src: String, source: AssetSource },
    Command { id: Option<String>, pattern: String, args: Vec<MessageFragment>, source: AssetSource },
}

/// An asset, as mathematics.
pub enum AssetView {
    Emote { id: Option<Seq<char>>, pattern: Seq<char>, src: Seq<char>, source: AssetSource },
    Sticker { id: Option<Seq<char>>, pattern: Seq<char>, src: Seq<char>, source: AssetSource },
    Audio { id: Option<Seq<char>>, pattern: Seq<char>, src: Seq<char>, source: AssetSource },
    Command {
        id: Option<Seq<char>>,
        pattern: Seq<char>,
        args: Seq<FragmentView>,
        source: AssetSource,
    },
}

impl View for Asset {
    type V = AssetView;

    open spec fn view(&self) -> AssetView {
        match *self {
            Asset::Emote { id, pattern, src, source } => AssetView::Emote {
                id: opt_view(id),
                pattern: pattern@,
                src: src@,
                source,
            },
            Asset::Sticker { id, pattern, src, source } => AssetView::Sticker {
                id: opt_view(id),
                pattern: pattern@,
                src: src@,
                source,
            },
            Asset::Audio { id, pattern, src, source } => AssetView::Audio {
                id: opt_view(id),
                pattern: pattern@,
                src: src@,
                source,
            },
            Asset::Command { id, pattern, args, source } => AssetView::Command {
                id: opt_view(id),
                pattern: pattern@,
                args: each_view(args@),
                source,
            },
        }
    }
}

impl Clone for Asset {
    fn clone(&self) -> (r: Self)
        ensures
            r@ == self@,
    {
        match self {
            Asset::Emote { id, pattern, src, source } => Asset::Emote {
                id: copy_opt_text(id),
                pattern: pattern.clone(),
                src: src.clone(),
                source: *source,
            },
            Asset::Sticker { id, pattern, src, source } => Asset::Sticker {
                id: copy_opt_text(id),
                pattern: pattern.clone(),
                src: src.clone(),
                source: *source,
            },
            Asset::Audio { id, pattern, src, source } => Asset::Audio {
                id: copy_opt_text(id),
                pattern: pattern.clone(),
                src: src.clone(),
                source: *source,
            },
            Asset::Command { id, pattern, args, source } => Asset::Command {
                id: copy_opt_text(id),
                pattern: pattern.clone(),
                args: copy_fragments(args),
                source: *source,
            },
        }
    }
}

/// A channel of a connection.
#[derive(Debug, PartialEq)]
pub struct Channel {
    pub id: String,
    pub name: Option<String>,
    pub channel_type: ChannelType,
}

/// A channel, as mathematics.
pub struct ChannelView {
    pub id: Seq<char>,
    pub name: Option<Seq<char>>,
    pub channel_type: ChannelType,
}

impl View for Channel {
    type V = ChannelView;

    open spec fn view(&self) -> ChannelView {
        ChannelView { id: self.id@, name: opt_view(self.name), channel_type: self.channel_type }
    }
}

impl Clone for Channel {
    fn clone(&self) -> (r: Self)
        ensures
            r@ == self@,
    {
        Channel {
            id: self.id.clone(),
            name: copy_opt_text(&self.name),
            channel_type: self.channel_type,
        }
    }
}

/// A channel with what the backend holds of it: who is in it, its message
/// history and the assets that belong to it.
#[derive(Debug)]
pub struct ChannelState {
    pub channel: Channel,
    pub users: StrMap<Profile>,
    pub messages: Vec<Message>,
    pub assets: StrMap<Asset>,
}

/// The state of a channel, as mathematics.
pub struct ChannelStateView {
    pub channel: ChannelView,
    pub users: Map<Seq<char>, ProfileView>,
    pub messages: Seq<MessageView>,
    pub assets: Map<Seq<char>, AssetView>,
}

impl View for ChannelState {
    type V = ChannelStateView;

    open spec fn view(&self) -> ChannelStateView {
        ChannelStateView {
            channel: self.channel@,
            users: self.users@,
            messages: each_view(self.messages@),
            assets: self.assets@,
        }
    }
}

impl Clone for ChannelState {
    fn clone(&self) -> (r: Self)
        ensures
            r@ == self@,
    {
        ChannelState {
            channel: self.channel.clone(),
            users: self.users.copy(),
            messages: copy_each(&self.messages),
            assets: self.assets.copy(),
        }
    }
}

impl ChannelState {
    /// A channel with nobody in it, no history and no assets.
    pub fn new(channel: Channel) -> (s: Self)
        ensures
            s@ == (ChannelStateView {
                channel: channel@,
                users: Map::empty(),
                messages: Seq::empty(),
                assets: Map::empty(),
            }),
    {
        let s = ChannelState {
            channel,
            users: StrMap::new(),
            messages: Vec::new(),
            assets: StrMap::new(),
        };
        proof {
            assert(s@.users =~= Map::<Seq<char>, ProfileView>::empty());
            assert(s@.assets =~= Map::<Seq<char>, AssetView>::empty());
            assert(s@.messages =~= Seq::<MessageView>::empty());
        }
        s
    }
}

/// What the backend holds of one connection. `channels` lists the ids of
/// its channels in the order in which the backend reports them.
#[derive(Debug)]
pub struct ConnectionState {
    pub connection_id: String,
    pub protocol_name: String,
    pub status: ConnectionStatus,
    pub channels: Vec<String>,
    pub current_channel: Option<String>,
    pub global_users: StrMap<Profile>,
    pub global_assets: StrMap<Asset>,
    pub current_user_id: Option<String>,
}

/// The state of a connection, as mathematics.
pub struct ConnectionStateView {
    pub connection_id: Seq<char>,
    pub protocol_name: Seq<char>,
    pub status: ConnectionStatus,
    pub channels: Seq<Seq<char>>,
    pub current_channel: Option<Seq<char>>,
    pub global_users: Map<Seq<char>, ProfileView>,
    pub global_assets: Map<Seq<char>, AssetView>,
    pub current_user_id: Option<Seq<char>>,
}

impl View for ConnectionState {
    type V = ConnectionStateView;

    open spec fn view(&self) -> ConnectionStateView {
        ConnectionStateView {
            connection_id: self.connection_id@,
            protocol_name: self.protocol_name@,
            status: self.status,
            channels: each_view(self.channels@),
            current_channel: opt_view(self.current_channel),
            global_users: self.global_users@,
            global_assets: self.global_assets@,
            current_user_id: opt_view(self.current_user_id),
        }
    }
}

impl Clone for ConnectionState {
    fn clone(&self) -> (r: Self)
        ensures
            r@ == self@,
    {
        assert(clone_keeps_view::<Profile>());
        assert(clone_keeps_view::<Asset>());
        ConnectionState {
            connection_id: self.connection_id.clone(),
            protocol_name: self.protocol_name.clone(),
            status: self.status,
            channels: copy_texts(&self.channels),
            current_channel: copy_opt_text(&self.current_channel),
            global_users: self.global_users.copy(),
            global_assets: self.global_assets.copy(),
            current_user_id: copy_opt_text(&self.current_user_id),
        }
    }
}

/// One field of the credentials that a protocol asks for.
#[derive(Debug, PartialEq)]
pub struct CredentialField {
    pub name: String,
    pub display: Option<String>,
    pub value: FieldValue,
    pub required: bool,
}

/// What a credentials field holds.
#[derive(Debug, PartialEq)]
pub enum FieldValue {
    Text(Option<String>),
    Password(Option<String>),
    Group(Vec<CredentialField>),
}

/// A credentials field, as mathematics.
pub struct CredentialFieldView {
    pub name: Seq<char>,
    pub display: Option<Seq<char>>,
    pub value: FieldValueView,
    pub required: bool,
}

/// What a credentials field holds, as mathematics.
pub enum FieldValueView {
    Text(Option<Seq<char>>),
    Password(Option<Seq<char>>),
    Group(Seq<CredentialFieldView>),
}

/// The view of a credentials field.
pub open spec fn field_view(field: CredentialField) -> CredentialFieldView
    decreases field,
{
    CredentialFieldView {
        name: field.name@,
        display: opt_view(field.display),
        value: value_view(field.value),
        required: field.required,
    }
}

/// The view of what a credentials field holds.
pub open spec fn value_view(value: FieldValue) -> FieldValueView
    decreases value,
{
    match value {
        FieldValue::Text(text) => FieldValueView::Text(opt_view(text)),
        FieldValue::Password(text) => FieldValueView::Password(opt_view(text)),
        FieldValue::Group(fields) => FieldValueView::Group(fields_view(fields)),
    }
}

/// The view of each field of a list of credentials fields, in order.
pub open spec fn fields_view(fields: Vec<CredentialField>) -> Seq<CredentialFieldView>
    decreases fields,
{
    Seq::new(
        fields@.len(),
        |i: int|
            if 0 <= i < fields@.len() {
                field_view(fields@[i])
            } else {
                arbitrary()
            },
    )
}

impl View for CredentialField {
    type V = CredentialFieldView;

    open spec fn view(&self) -> CredentialFieldView {
        field_view(*self)
    }
}

impl View for FieldValue {
    type V = FieldValueView;

    open spec fn view(&self) -> FieldValueView {
        value_view(*self)
    }
}

/// A copy of a list of credentials fields, groups and all.
pub fn copy_fields(fields: &Vec<CredentialField>) -> (r: Vec<CredentialField>)
    ensures
        fields_view(r) == fields_view(*fields),
    decreases fields,
{
    let mut r: Vec<CredentialField> = Vec::new();
    let mut i: usize = 0;
    while i < fields.len()
        invariant
            i <= fields.len(),
            r@.len() == i,
            forall|j: int| 0 <= j < i ==> field_view(r@[j]) == field_view(fields@[j]),
        decreases fields.len() - i,
    {
        let field = &fields[i];
        let value = match &field.value {
            FieldValue::Text(text) => FieldValue::Text(copy_opt_text(text)),
            FieldValue::Password(text) => FieldValue::Password(copy_opt_text(text)),
            FieldValue::Group(inner) => FieldValue::Group(copy_fields(inner)),
        };
        r.push(
            CredentialField {
                name: field.name.clone(),
                display: copy_opt_text(&field.display),
                value,
                required: field.required,
            },
        );
        i += 1;
    }
    proof {
        assert(fields_view(r) =~= fields_view(*fields));
    }
    r
}

impl Clone for FieldValue {
    fn clone(&self) -> (r: Self)
        ensures
            r@ == self@,
    {
        match self {
            FieldValue::Text(text) => FieldValue::Text(copy_opt_text(text)),
            FieldValue::Password(text) => FieldValue::Password(copy_opt_text(text)),
            FieldValue::Group(inner) => FieldValue::Group(copy_fields(inner)),
        }
    }
}

impl Clone for CredentialField {
    fn clone(&self) -> (r: Self)
        ensures
            r@ == self@,
    {
        CredentialField {
            name: self.name.clone(),
            display: copy_opt_text(&self.display),
            value: self.value.clone(),
            required: self.required,
        }
    }
}

/// A chat protocol and the credentials it asks for.
#[derive(Debug, PartialEq)]
pub struct Protocol {
    pub name: String,
    pub auth: Option<Vec<CredentialField>>,
}

/// A protocol, as mathematics.
pub struct ProtocolView {
    pub name: Seq<char>,
    pub auth: Option<Seq<CredentialFieldView>>,
}

impl View for Protocol {
    type V = ProtocolView;

    open spec fn view(&self) -> ProtocolView {
        ProtocolView {
            name: self.name@,
            auth: match self.auth {
                Some(fields) => Some(fields_view(fields)),
                None => None,
            },
        }
    }
}

impl Clone for Protocol {
    fn clone(&self) -> (r: Self)
        ensures
            r@ == self@,
    {
        Protocol {
            name: self.name.clone(),
            auth: match &self.auth {
                Some(fields) => Some(copy_fields(fields)),
                None => None,
            },
        }
    }
}

/// A user's account with one protocol.
#[derive(Debug, PartialEq)]
pub struct Account {
    pub auth: Vec<CredentialField>,
    pub protocol_name: String,
    pub private_profile: Option<Profile>,
    pub autoconnect: bool,
}

/// An account, as mathematics.
pub struct AccountView {
    pub auth: Seq<CredentialFieldView>,
    pub protocol_name: Seq<char>,
    pub private_profile: Option<ProfileView>,
    pub autoconnect: bool,
}

impl View for Account {
    type V = AccountView;

    open spec fn view(&self) -> AccountView {
        AccountView {
            auth: fields_view(self.auth),
            protocol_name: self.protocol_name@,
            private_profile: opt_view(self.private_profile),
            autoconnect: self.autoconnect,
        }
    }
}

impl Clone for Account {
    fn clone(&self) -> (r: Self)
        ensures
            r@ == self@,
    {
        Account {
            auth: copy_fields(&self.auth),
            protocol_name: self.protocol_name.clone(),
            private_profile: match &self.private_profile {
                Some(profile) => Some(profile.clone()),
                None => None,
            },
            autoconnect: self.autoconnect,
        }
    }
}

} // verus!
