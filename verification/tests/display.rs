use taitsu::display::{assets_in_order, channel_label_of, users_in_order, AssetKind};
use taitsu::model::{
    Account, Asset, AssetSource, Channel, ChannelState, ChannelType, ConnectionStatus, Message,
    MessageFragment, MessageStatus, MessageType, Profile,
};
use taitsu::order::place_for;
use taitsu::state::{ChatSettings, ConnectionCache, Media, Panels};
use taitsu::strmap::StrMap;

fn o(text: &str) -> String {
    text.to_string()
}

fn person(display: Option<&str>, username: Option<&str>) -> Profile {
    Profile {
        id: Some(o("id")),
        username: username.map(o),
        display_name: display.map(o),
        color: Some([1, 2, 3, 4]),
        picture: None,
    }
}

fn line(sender: Option<&str>, kind: MessageType) -> Message {
    Message {
        id: None,
        sender_id: sender.map(o),
        content: vec![MessageFragment::Text(o("x"))],
        timestamp: 0,
        message_type: kind,
        status: MessageStatus::Sent,
    }
}

#[test]
fn settings_start_with_images_and_assets_embedded() {
    let s = ChatSettings::default();
    assert_eq!(
        s,
        ChatSettings {
            autoscroll: true,
            auto_embed_images: true,
            auto_embed_videos: false,
            auto_embed_audio: false,
            auto_embed_emotes: true,
            auto_embed_stickers: true,
            last_message_count: 0,
            embed_generation: 0,
            unembed_override: false,
        }
    );
}

#[test]
fn panels_default_and_start() {
    let p = Panels::default();
    assert!(!p.accounts && !p.channels && !p.users && !p.chat && !p.input && !p.settings);
    let p = Panels::at_start();
    assert!(p.accounts && p.channels && p.users && p.chat && p.input && !p.settings);
}

#[test]
fn scrolls_only_for_new_messages() {
    let mut s = ChatSettings::default();
    s.last_message_count = 3;
    assert!(s.should_scroll(4));
    assert!(!s.should_scroll(3));
    assert!(!s.should_scroll(0));
    s.autoscroll = false;
    assert!(!s.should_scroll(10));
}

#[test]
fn unembed_all_closes_every_kind() {
    let mut s = ChatSettings::default();
    s.auto_embed_videos = true;
    assert!(s.embeds(Media::Image));
    assert!(s.embeds(Media::Video));
    assert!(!s.embeds(Media::Audio));
    s.unembed_all();
    assert_eq!(s.embed_generation, 1);
    assert!(s.unembed_override);
    assert!(!s.embeds(Media::Image));
    assert!(!s.embeds(Media::Video));
    assert!(!s.embeds(Media::Audio));
    assert!(s.auto_embed_images);
    s.unembed_all();
    assert_eq!(s.embed_generation, 2);
}

#[test]
fn message_count_adds_history_and_pending() {
    let mut snap = ConnectionCache::placeholder(o("a"), 0, None);
    assert_eq!(snap.message_count(), 0);
    snap.pending_messages.push(line(None, MessageType::CurrentUser));
    assert_eq!(snap.message_count(), 1);
    let mut channel = ChannelState::new(Channel {
        id: o("c"),
        name: None,
        channel_type: ChannelType::Group,
    });
    channel.messages.push(line(None, MessageType::Normal));
    channel.messages.push(line(None, MessageType::Normal));
    snap.current_channel = Some(channel);
    assert_eq!(snap.message_count(), 3);
}

#[test]
fn shown_name_falls_back() {
    assert_eq!(person(Some("Ann"), Some("ann")).shown_name(), "Ann");
    assert_eq!(person(None, Some("ann")).shown_name(), "ann");
    assert_eq!(person(None, None).shown_name(), "Unknown");
}

#[test]
fn sender_label_falls_back_to_the_id() {
    let m = line(Some("u1"), MessageType::Normal);
    assert_eq!(m.sender_label(Some(&person(Some("Ann"), Some("ann")))), "Ann");
    assert_eq!(m.sender_label(Some(&person(None, Some("ann")))), "ann");
    assert_eq!(m.sender_label(Some(&person(None, None))), "u1");
    assert_eq!(m.sender_label(None), "u1");
    assert_eq!(line(None, MessageType::Normal).sender_label(None), "Unknown");
}

#[test]
fn messages_group_by_sender_and_kind() {
    let normal = line(Some("u1"), MessageType::Normal);
    assert!(normal.continues(&Some(o("u1")), Some(MessageType::Normal), true));
    assert!(!normal.continues(&Some(o("u2")), Some(MessageType::Normal), true));
    assert!(!normal.continues(&Some(o("u1")), Some(MessageType::CurrentUser), true));
    assert!(!normal.continues(&None, None, true));
    assert!(line(None, MessageType::Normal).continues(&None, None, true));
    let server = line(Some("u1"), MessageType::Server);
    assert!(!server.continues(&Some(o("u1")), Some(MessageType::Server), false));
    assert!(!server.continues(&Some(o("u1")), None, true));
    assert!(server.continues(&Some(o("u1")), None, false));
    let meta = line(None, MessageType::Meta);
    assert!(!meta.continues(&None, None, true));
    assert!(meta.continues(&None, None, false));
    assert!(!meta.continues(&None, Some(MessageType::Meta), false));
}

#[test]
fn labels_of_states_channels_and_accounts() {
    assert_eq!(ConnectionStatus::Connected.sign(), "= w=");
    assert_eq!(ConnectionStatus::Connecting.sign(), "o ^o");
    assert_eq!(ConnectionStatus::Disconnected.sign(), ". _.");
    assert_eq!(channel_label_of(&o("")), "General");
    assert_eq!(channel_label_of(&o("lobby")), "lobby");
    let mut account = Account {
        auth: Vec::new(),
        protocol_name: o("sockchat"),
        private_profile: Some(person(Some("Ann"), Some("ann"))),
        autoconnect: false,
    };
    assert_eq!(account.label(), "ann (sockchat)");
    account.private_profile = Some(person(Some("Ann"), None));
    assert_eq!(account.label(), "sockchat (sockchat)");
    account.private_profile = None;
    assert_eq!(account.label(), "sockchat (sockchat)");
}

#[test]
fn channel_users_lie_over_connection_users() {
    let mut snap = ConnectionCache::placeholder(o("a"), 0, None);
    snap.global_users.insert(o("1"), person(Some("Global One"), None));
    snap.global_users.insert(o("2"), person(Some("Global Two"), None));
    assert_eq!(snap.all_users().len(), 2);
    let mut channel = ChannelState::new(Channel {
        id: o("c"),
        name: None,
        channel_type: ChannelType::Group,
    });
    channel.users.insert(o("2"), person(Some("Channel Two"), None));
    channel.users.insert(o("3"), person(Some("Channel Three"), None));
    snap.current_channel = Some(channel);
    let all = snap.all_users();
    assert_eq!(all.len(), 3);
    assert_eq!(all.get(&o("1")).unwrap().shown_name(), "Global One");
    assert_eq!(all.get(&o("2")).unwrap().shown_name(), "Channel Two");
    assert_eq!(all.get(&o("3")).unwrap().shown_name(), "Channel Three");
    assert_eq!(snap.global_users.len(), 2);
}

#[test]
fn users_are_listed_by_lower_case_user_name() {
    let named = |id: &str, username: Option<&str>| Profile {
        id: Some(o(id)),
        username: username.map(o),
        display_name: None,
        color: None,
        picture: None,
    };
    let mut users: StrMap<Profile> = StrMap::new();
    users.insert(o("1"), named("1", Some("bob")));
    users.insert(o("2"), named("2", Some("Zed")));
    users.insert(o("3"), named("3", None));
    users.insert(o("4"), named("4", Some("alice")));
    users.insert(o("5"), named("5", Some("Bob")));
    users.insert(o("6"), named("6", Some("bo")));
    let listed = users_in_order(&users);
    let ids: Vec<&str> = listed.iter().map(|(id, _)| id.as_str()).collect();
    assert_eq!(ids, vec!["3", "4", "6", "1", "5", "2"]);
    for (id, user) in &listed {
        assert_eq!(users.get(id), Some(user));
    }
    assert_eq!(users.len(), 6);
    assert!(users_in_order(&StrMap::new()).is_empty());
}

#[test]
fn panel_order_takes_the_channel_entry_on_a_shared_id() {
    let mut snap = ConnectionCache::placeholder(o("a"), 0, None);
    snap.global_users.insert(o("1"), person(None, Some("walter")));
    snap.global_users.insert(o("2"), person(None, Some("Carol")));
    let mut channel = ChannelState::new(Channel {
        id: o("c"),
        name: None,
        channel_type: ChannelType::Group,
    });
    channel.users.insert(o("1"), person(None, Some("adam")));
    channel.users.insert(o("3"), person(None, Some("bert")));
    snap.current_channel = Some(channel);
    let listed = snap.users_in_order();
    let names: Vec<(&str, &str)> = listed
        .iter()
        .map(|(id, user)| (id.as_str(), user.username.as_deref().unwrap()))
        .collect();
    assert_eq!(names, vec![("1", "adam"), ("3", "bert"), ("2", "Carol")]);
    assert_eq!(snap.global_users.get(&o("1")).unwrap().username, Some(o("walter")));
}

#[test]
fn assets_of_a_kind_are_listed_by_pattern() {
    let emote = |pattern: &str| Asset::Emote {
        id: None,
        pattern: o(pattern),
        src: o("e.png"),
        source: AssetSource::Server,
    };
    let sticker = |pattern: &str| Asset::Sticker {
        id: None,
        pattern: o(pattern),
        src: o("s.png"),
        source: AssetSource::User,
    };
    let mut assets: StrMap<Asset> = StrMap::new();
    assets.insert(o("1"), emote(":wave:"));
    assets.insert(o("2"), sticker("cat"));
    assets.insert(o("3"), emote(":Smile:"));
    assets.insert(o("4"), emote(":a:"));
    assets.insert(o("5"), sticker("bat"));
    assets.insert(o("6"), emote(":wav:"));
    let ids = |kind: AssetKind| -> Vec<String> {
        assets_in_order(&assets, kind).into_iter().map(|(id, _)| id).collect()
    };
    assert_eq!(ids(AssetKind::Emote), vec![o("3"), o("4"), o("6"), o("1")]);
    assert_eq!(ids(AssetKind::Sticker), vec![o("5"), o("2")]);
    assert!(ids(AssetKind::Audio).is_empty());
    assert!(ids(AssetKind::Command).is_empty());
    for (id, asset) in assets_in_order(&assets, AssetKind::Emote) {
        assert_eq!(assets.get(&id), Some(&asset));
        assert_eq!(asset.kind(), AssetKind::Emote);
    }
    assert_eq!(emote(":x:").pattern(), ":x:");
    assert_eq!(sticker("cat").kind(), AssetKind::Sticker);
}

#[test]
fn texts_are_ordered_by_code_point() {
    let s = |x: &str| o(x);
    assert_eq!(place_for(&vec![], &s("a")), 0);
    let keys = vec![s(""), s("B"), s("a"), s("a"), s("ab"), s("b"), s("é")];
    assert_eq!(place_for(&keys, &s("")), 1);
    assert_eq!(place_for(&keys, &s("A")), 1);
    assert_eq!(place_for(&keys, &s("a")), 4);
    assert_eq!(place_for(&keys, &s("aa")), 4);
    assert_eq!(place_for(&keys, &s("ab")), 5);
    assert_eq!(place_for(&keys, &s("z")), 6);
    assert_eq!(place_for(&keys, &s("\u{10000}")), 7);
}
