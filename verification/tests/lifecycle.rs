use taitsu::bindings::Bindings;
use taitsu::cache::UiCache;
use taitsu::client::{ChannelSwitch, ChatClient, ConnectOutcome, DispatchError};
use taitsu::lifecycle::{classify_lowered, classify_protocol, find_user_id, ProtocolKind};
use taitsu::model::{
    Account, CredentialField, Channel, ChannelState, ChannelType, ConnectionStatus, FieldValue, Message,
    MessageFragment, MessageStatus, MessageType, Profile,
};
use taitsu::protocols::{available_protocols, protocol_of};
use taitsu::state::ConnectionCache;
use taitsu::text::text_is_blank;

fn t(text: &str) -> String {
    text.to_string()
}

fn field(name: &str, value: FieldValue) -> CredentialField {
    CredentialField { name: t(name), display: None, value, required: true }
}

fn plain_account(protocol: &str, autoconnect: bool, auth: Vec<CredentialField>) -> Account {
    Account { auth, protocol_name: t(protocol), private_profile: None, autoconnect }
}

fn note(text: &str) -> Message {
    Message {
        id: None,
        sender_id: Some(t("me")),
        content: vec![MessageFragment::Text(t(text))],
        timestamp: 0,
        message_type: MessageType::CurrentUser,
        status: MessageStatus::Sent,
    }
}

#[test]
fn protocol_names_are_classified_whatever_their_case() {
    assert_eq!(classify_protocol("Mock"), ProtocolKind::Mock);
    assert_eq!(classify_protocol("MOCK"), ProtocolKind::Mock);
    assert_eq!(classify_protocol("my-mock-server"), ProtocolKind::Mock);
    assert_eq!(classify_protocol("sockchat"), ProtocolKind::Sockchat);
    assert_eq!(classify_protocol("SockChat v2"), ProtocolKind::Sockchat);
    assert_eq!(classify_protocol("irc"), ProtocolKind::Unsupported);
    assert_eq!(classify_protocol(""), ProtocolKind::Unsupported);
}

#[test]
fn mock_is_looked_for_before_sockchat() {
    assert_eq!(classify_protocol("sockchat-mock"), ProtocolKind::Mock);
    assert_eq!(classify_lowered("sockchat mock"), ProtocolKind::Mock);
}

#[test]
fn lowered_names_are_taken_as_they_are() {
    assert_eq!(classify_lowered("mock"), ProtocolKind::Mock);
    assert_eq!(classify_lowered("Mock"), ProtocolKind::Unsupported);
    assert_eq!(classify_lowered("SOCKCHAT"), ProtocolKind::Unsupported);
    assert_eq!(classify_lowered("xsockchatx"), ProtocolKind::Sockchat);
}

#[test]
fn user_id_is_the_text_of_the_uid_field() {
    let auth = vec![
        field("server", FieldValue::Text(Some(t("example.org")))),
        field("uid", FieldValue::Text(Some(t("42")))),
        field("token", FieldValue::Password(Some(t("SECRET-REDACTED")))),
    ];
    assert_eq!(find_user_id(&auth), Some(t("42")));
}

#[test]
fn last_uid_field_wins() {
    let auth = vec![
        field("uid", FieldValue::Text(Some(t("1")))),
        field("uid", FieldValue::Text(Some(t("2")))),
        field("uid", FieldValue::Text(None)),
        field("uid", FieldValue::Password(Some(t("3")))),
    ];
    assert_eq!(find_user_id(&auth), Some(t("2")));
}

#[test]
fn other_fields_name_no_user() {
    assert_eq!(find_user_id(&Vec::new()), None);
    let auth = vec![
        field("UID", FieldValue::Text(Some(t("1")))),
        field("uid", FieldValue::Password(Some(t("2")))),
        field("uid", FieldValue::Text(None)),
        field(
            "group",
            FieldValue::Group(vec![field("uid", FieldValue::Text(Some(t("nested"))))]),
        ),
    ];
    assert_eq!(find_user_id(&auth), None);
}

#[test]
fn new_client_has_accounts_and_nothing_else() {
    let client: ChatClient<u8> = ChatClient::new(vec![plain_account("Mock", false, Vec::new())]);
    assert_eq!(client.cache.accounts().len(), 1);
    assert!(client.cache.connections().is_empty());
    assert_eq!(client.cache.active_connection_id(), None);
    assert_eq!(client.cache.updated(), None);
    assert!(client.connections.is_empty());
    assert!(!client.is_bound(0));
    assert!(client.active_connection().is_none());
    assert_eq!(ChatClient::<u8>::name(), "Taitsu");
}

#[test]
fn autoconnect_picks_marked_accounts_in_order() {
    let client: ChatClient<u8> = ChatClient::new(vec![
        plain_account("a", false, Vec::new()),
        plain_account("b", true, Vec::new()),
        plain_account("c", false, Vec::new()),
        plain_account("d", true, Vec::new()),
    ]);
    assert_eq!(client.auto_connect_accounts(), vec![1, 3]);
    let none: ChatClient<u8> = ChatClient::new(Vec::new());
    assert!(none.auto_connect_accounts().is_empty());
}

#[test]
fn connect_binds_and_inserts_a_placeholder() {
    let mut client: ChatClient<u8> = ChatClient::new(Vec::new());
    let acct = plain_account(
        "Sockchat",
        false,
        vec![field("uid", FieldValue::Text(Some(t("u7"))))],
    );
    let outcome = client.connect_account(4, &acct, t("c-4"));
    assert_eq!(outcome, ConnectOutcome::Started(ProtocolKind::Sockchat));
    assert!(client.is_bound(4));
    assert_eq!(client.account_to_conn.get(4), Some(&t("c-4")));
    let snap = client.active_connection().unwrap();
    assert_eq!(snap.connection_id, "c-4");
    assert_eq!(snap.account_index, 4);
    assert_eq!(snap.status, ConnectionStatus::Connecting);
    assert!(snap.channels.is_empty());
    assert!(snap.current_channel.is_none());
    assert!(snap.assets.is_empty());
    assert!(snap.global_users.is_empty());
    assert_eq!(snap.current_user, Some(Profile::with_id(t("u7"))));
    assert!(snap.pending_messages.is_empty());
    assert_eq!(snap.last_ping, None);
    assert!(client.connections.is_empty());
}

#[test]
fn connect_without_uid_has_no_current_user() {
    let mut client: ChatClient<u8> = ChatClient::new(Vec::new());
    let outcome = client.connect_account(0, &plain_account("irc", false, Vec::new()), t("c"));
    assert_eq!(outcome, ConnectOutcome::Started(ProtocolKind::Unsupported));
    assert!(client.active_connection().unwrap().current_user.is_none());
    assert!(client.is_bound(0));
}

#[test]
fn connect_leaves_a_bound_account_alone() {
    let mut client: ChatClient<u8> = ChatClient::new(Vec::new());
    let acct = plain_account("Mock", false, Vec::new());
    client.connect_account(0, &acct, t("first"));
    let outcome = client.connect_account(0, &acct, t("second"));
    assert_eq!(outcome, ConnectOutcome::AlreadyBound);
    assert_eq!(client.account_to_conn.get(0), Some(&t("first")));
    assert_eq!(client.cache.connections().len(), 1);
    assert!(!client.cache.connections().contains(&t("second")));
}

#[test]
fn second_connection_does_not_take_the_selection() {
    let mut client: ChatClient<u8> = ChatClient::new(Vec::new());
    let acct = plain_account("Mock", false, Vec::new());
    client.connect_account(0, &acct, t("a"));
    client.connect_account(1, &acct, t("b"));
    assert_eq!(client.cache.active_connection_id(), Some(&t("a")));
    assert_eq!(client.cache.connections().len(), 2);
}

#[test]
fn placeholder_replaces_a_snapshot_that_came_first() {
    let mut client: ChatClient<u8> = ChatClient::new(Vec::new());
    let mut early = ConnectionCache::placeholder(t("c"), 0, None);
    early.status = ConnectionStatus::Connected;
    client.cache.insert_snapshot(early);
    client.connect_account(3, &plain_account("Mock", false, Vec::new()), t("c"));
    let snap = client.active_connection().unwrap();
    assert_eq!(snap.account_index, 3);
    assert_eq!(snap.status, ConnectionStatus::Connecting);
    assert_eq!(client.cache.connections().len(), 1);
}

#[test]
fn disconnect_of_unbound_account_changes_nothing() {
    let mut client: ChatClient<u8> = ChatClient::new(Vec::new());
    let acct = plain_account("Mock", false, Vec::new());
    client.connect_account(0, &acct, t("a"));
    client.register_connection(t("a"), 1);
    assert!(client.disconnect_account(5).is_none());
    assert!(client.is_bound(0));
    assert_eq!(client.account_to_conn.get(0), Some(&t("a")));
    assert_eq!(client.connections.get(&t("a")), Some(&1));
    assert_eq!(client.connections.len(), 1);
    assert_eq!(client.cache.connections().len(), 1);
    assert_eq!(client.cache.active_connection_id(), Some(&t("a")));
}

#[test]
fn disconnect_before_handshake_has_no_connection_to_close() {
    let mut client: ChatClient<u8> = ChatClient::new(Vec::new());
    client.connect_account(0, &plain_account("Mock", false, Vec::new()), t("a"));
    let teardown = client.disconnect_account(0).unwrap();
    assert_eq!(teardown.connection_id, "a");
    assert_eq!(teardown.connection, None);
    assert!(client.cache.connections().is_empty());
    assert_eq!(client.cache.active_connection_id(), None);
    assert!(client.disconnect_account(0).is_none());
}

#[test]
fn disconnect_of_inactive_connection_keeps_the_selection() {
    let mut client: ChatClient<u8> = ChatClient::new(Vec::new());
    let acct = plain_account("Mock", false, Vec::new());
    client.connect_account(0, &acct, t("a"));
    client.connect_account(1, &acct, t("b"));
    client.disconnect_account(1).unwrap();
    assert_eq!(client.cache.active_connection_id(), Some(&t("a")));
}

#[test]
fn disconnect_after_prune_still_unbinds() {
    let mut client: ChatClient<u8> = ChatClient::new(Vec::new());
    client.connect_account(0, &plain_account("Mock", false, Vec::new()), t("a"));
    client.cache.apply_tick(&Vec::new(), taitsu::table::SnapshotTable::new(), 1);
    assert!(client.is_bound(0));
    let teardown = client.disconnect_account(0).unwrap();
    assert_eq!(teardown.connection_id, "a");
    assert!(!client.is_bound(0));
}

#[test]
fn register_hands_back_the_connection_it_replaces() {
    let mut client: ChatClient<u8> = ChatClient::new(Vec::new());
    assert_eq!(client.register_connection(t("a"), 1), None);
    assert_eq!(client.register_connection(t("a"), 2), Some(1));
    assert_eq!(client.connections.get(&t("a")), Some(&2));
}

#[test]
fn account_index_falls_back_to_the_first_account() {
    let mut client: ChatClient<u8> = ChatClient::new(Vec::new());
    client.connect_account(6, &plain_account("Mock", false, Vec::new()), t("a"));
    assert_eq!(client.account_to_conn.account_index_for(&t("a")), 6);
    assert_eq!(client.account_to_conn.account_index_for(&t("nobody")), 0);
}

#[test]
fn set_active_ignores_unknown_ids() {
    let mut client: ChatClient<u8> = ChatClient::new(Vec::new());
    let acct = plain_account("Mock", false, Vec::new());
    client.connect_account(0, &acct, t("a"));
    client.connect_account(1, &acct, t("b"));
    client.set_active_connection(t("zzz"));
    assert_eq!(client.cache.active_connection_id(), Some(&t("a")));
    client.set_active_connection(t("b"));
    assert_eq!(client.cache.active_connection_id(), Some(&t("b")));
    assert_eq!(client.active_connection().unwrap().connection_id, "b");
    let mut empty = UiCache::new();
    assert!(!empty.set_active(t("a")));
    assert_eq!(empty.active_connection_id(), None);
}

#[test]
fn switch_goes_to_the_active_connection() {
    let mut client: ChatClient<u8> = ChatClient::new(Vec::new());
    assert_eq!(client.sync_selection(t("lobby")), None);
    client.connect_account(0, &plain_account("Mock", false, Vec::new()), t("a"));
    assert_eq!(
        client.sync_selection(t("lobby")),
        Some(ChannelSwitch { connection_id: t("a"), channel_id: t("lobby") })
    );
}

#[test]
fn send_needs_an_active_and_open_connection() {
    let mut client: ChatClient<u8> = ChatClient::new(Vec::new());
    assert_eq!(client.send_event(), Err(DispatchError::NoActiveConnection));
    client.connect_account(0, &plain_account("Mock", false, Vec::new()), t("a"));
    assert_eq!(client.send_event(), Err(DispatchError::NotConnected));
    client.register_connection(t("b"), 8);
    assert_eq!(client.send_event(), Err(DispatchError::NotConnected));
    client.register_connection(t("a"), 9);
    assert_eq!(client.send_event(), Ok(&9));
}

#[test]
fn pending_message_goes_to_the_active_connection() {
    let mut client: ChatClient<u8> = ChatClient::new(Vec::new());
    client.add_pending_message(note("lost"));
    assert!(client.cache.connections().is_empty());
    let acct = plain_account("Mock", false, Vec::new());
    client.connect_account(0, &acct, t("a"));
    client.connect_account(1, &acct, t("b"));
    client.set_active_connection(t("b"));
    client.add_pending_message(note("one"));
    client.add_pending_message(note("two"));
    let b = client.cache.connections().get(&t("b")).unwrap();
    assert_eq!(b.pending_messages, vec![note("one"), note("two")]);
    assert!(client.cache.connections().get(&t("a")).unwrap().pending_messages.is_empty());
    let table = client.cache.connections();
    assert_eq!(table.id_at(0), "a");
    assert_eq!(table.id_at(1), "b");
}

#[test]
fn posted_message_is_from_the_current_user() {
    let mut client: ChatClient<u8> = ChatClient::new(Vec::new());
    assert!(client.post_message(t("hi"), 5).is_none());
    client.cache.insert_snapshot(ConnectionCache::placeholder(t("a"), 0, None));
    let out = client.post_message(t("  hi "), 77).unwrap();
    assert_eq!(out.connection_id, "a");
    assert_eq!(out.channel_id, None);
    assert_eq!(
        out.message,
        Message {
            id: None,
            sender_id: None,
            content: vec![MessageFragment::Text(t("  hi "))],
            timestamp: 77,
            message_type: MessageType::CurrentUser,
            status: MessageStatus::Sent,
        }
    );
    let mut with_channel = ConnectionCache::placeholder(t("b"), 0, Some(t("u9")));
    with_channel.current_channel = Some(ChannelState::new(Channel {
        id: t("lobby"),
        name: Some(t("Lobby")),
        channel_type: ChannelType::Group,
    }));
    client.cache.insert_snapshot(with_channel);
    client.set_active_connection(t("b"));
    let out = client.post_message(t("yo"), 78).unwrap();
    assert_eq!(out.channel_id, Some(t("lobby")));
    assert_eq!(out.message.sender_id, Some(t("u9")));
}

#[test]
fn blank_text_is_not_sent() {
    let mut client: ChatClient<u8> = ChatClient::new(Vec::new());
    client.cache.insert_snapshot(ConnectionCache::placeholder(t("a"), 0, Some(t("u1"))));
    assert!(client.submit_message(t(""), 5).is_none());
    assert!(client.submit_message(t("   \t\n"), 5).is_none());
    assert!(client.active_connection().unwrap().pending_messages.is_empty());
    let out = client.submit_message(t(" hi "), 91).unwrap();
    assert_eq!(out.message.content, vec![MessageFragment::Text(t(" hi "))]);
    assert_eq!(out.message.sender_id, Some(t("u1")));
    assert_eq!(out.message.message_type, MessageType::CurrentUser);
    assert_eq!(out.message.timestamp, 91);
    assert_eq!(client.active_connection().unwrap().pending_messages, vec![out.message]);
    let mut idle: ChatClient<u8> = ChatClient::new(Vec::new());
    assert!(idle.submit_message(t("hi"), 5).is_none());
}

#[test]
fn blank_means_only_white_space() {
    assert!(text_is_blank(""));
    assert!(text_is_blank(" \u{a0}\u{3000}\r\n"));
    assert!(!text_is_blank(" . "));
}

#[test]
fn bindings_bind_unbind_and_find_owner() {
    let mut b = Bindings::new();
    assert!(!b.contains(1));
    assert_eq!(b.get(1), None);
    assert_eq!(b.unbind(1), None);
    b.bind(1, t("x"));
    b.bind(2, t("y"));
    b.bind(1, t("z"));
    assert_eq!(b.get(1), Some(&t("z")));
    assert_eq!(b.get(2), Some(&t("y")));
    assert_eq!(b.owner(&t("z")), Some(1));
    assert_eq!(b.owner(&t("y")), Some(2));
    assert_eq!(b.owner(&t("x")), None);
    let copy = b.clone();
    assert_eq!(b.unbind(1), Some(t("z")));
    assert!(!b.contains(1));
    assert!(b.contains(2));
    assert_eq!(copy.get(1), Some(&t("z")));
}

#[test]
fn accounts_are_saved_deleted_and_marked() {
    let mut cache = UiCache::with_accounts(vec![plain_account("a", false, Vec::new())]);
    cache.save_account(None, plain_account("b", false, Vec::new()));
    cache.save_account(Some(0), plain_account("c", true, Vec::new()));
    let names: Vec<&str> = cache.accounts().iter().map(|a| a.protocol_name.as_str()).collect();
    assert_eq!(names, vec!["c", "b"]);
    assert!(cache.set_autoconnect(1, true));
    assert!(cache.accounts()[1].autoconnect);
    assert_eq!(cache.accounts()[1].protocol_name, "b");
    assert!(cache.set_autoconnect(0, false));
    assert!(!cache.accounts()[0].autoconnect);
    assert!(!cache.set_autoconnect(2, true));
    let gone = cache.delete_account(0);
    assert_eq!(gone.protocol_name, "c");
    assert_eq!(cache.accounts().len(), 1);
    assert_eq!(cache.accounts()[0].protocol_name, "b");
}

#[test]
fn mock_and_sockchat_are_available() {
    let protocols = available_protocols();
    assert_eq!(protocols.len(), 2);
    assert_eq!(protocols[0].name, "Mock");
    assert_eq!(protocols[0].auth, None);
    assert_eq!(protocols[1].name, "sockchat");
    let blank = |name: &str, display: &str, secret: bool, required: bool| CredentialField {
        name: t(name),
        display: Some(t(display)),
        value: if secret { FieldValue::Password(None) } else { FieldValue::Text(None) },
        required,
    };
    assert_eq!(
        protocols[1].auth,
        Some(vec![
            blank("sockchat_url", "Sockchat URL", false, true),
            blank("token", "User token", true, true),
            blank("uid", "UID", false, true),
            blank(
                "pfp_url",
                "Profile picture URL using {uid} to specify the user",
                false,
                false
            ),
            blank("asset_api", "URL of the Mami-compatible asset API", false, false),
        ])
    );
}

#[test]
fn protocol_of_each_kind() {
    assert_eq!(protocol_of(ProtocolKind::Mock).unwrap().name, "Mock");
    assert_eq!(protocol_of(ProtocolKind::Sockchat).unwrap().name, "sockchat");
    assert!(protocol_of(ProtocolKind::Unsupported).is_none());
    for protocol in available_protocols() {
        let kind = classify_protocol(&protocol.name);
        assert_eq!(protocol_of(kind).unwrap(), protocol);
    }
}
