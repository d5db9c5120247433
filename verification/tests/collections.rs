use taitsu::model::{
    Asset, AssetSource, Channel, ChannelState, ChannelType, ConnectionStatus, Message,
    MessageFragment, MessageStatus, MessageType, Profile,
};
use taitsu::state::ConnectionCache;
use taitsu::strmap::StrMap;
use taitsu::table::SnapshotTable;
use taitsu::text::{contains_text, copy_opt_text, copy_texts, is_text, same_opt_text, same_text};

fn k(text: &str) -> String {
    text.to_string()
}

fn keys_of<V>(m: &StrMap<V>) -> Vec<String> {
    (0..m.len()).map(|i| m.key_at(i).clone()).collect()
}

fn table_ids(t: &SnapshotTable) -> Vec<String> {
    (0..t.len()).map(|i| t.id_at(i).clone()).collect()
}

#[test]
fn map_insert_replaces_in_place() {
    let mut m: StrMap<u32> = StrMap::new();
    assert!(m.is_empty());
    assert_eq!(m.insert(k("a"), 1), None);
    assert_eq!(m.insert(k("b"), 2), None);
    assert_eq!(m.insert(k("a"), 3), Some(1));
    assert_eq!(m.len(), 2);
    assert_eq!(keys_of(&m), vec![k("a"), k("b")]);
    assert_eq!(m.get(&k("a")), Some(&3));
    assert_eq!(m.get(&k("b")), Some(&2));
    assert_eq!(m.get(&k("c")), None);
    assert_eq!(m.value_at(0), &3);
    assert_eq!(m.position(&k("b")), Some(1));
    assert_eq!(m.position(&k("z")), None);
    assert!(m.contains_key(&k("a")));
    assert!(!m.contains_key(&k("A")));
}

#[test]
fn map_remove_keeps_the_order_of_the_rest() {
    let mut m: StrMap<u32> = StrMap::new();
    for (i, key) in ["a", "b", "c", "d"].iter().enumerate() {
        m.insert(k(key), i as u32);
    }
    assert_eq!(m.remove(&k("b")), Some(1));
    assert_eq!(m.remove(&k("b")), None);
    assert_eq!(keys_of(&m), vec![k("a"), k("c"), k("d")]);
    assert_eq!(m.remove_at(2), (k("d"), 3));
    assert_eq!(m.take_first(), Some((k("a"), 0)));
    assert_eq!(m.take_first(), Some((k("c"), 2)));
    assert_eq!(m.take_first(), None);
    assert!(m.is_empty());
}

#[test]
fn map_insert_at_puts_a_new_key_in_its_place() {
    let mut m: StrMap<u32> = StrMap::new();
    m.insert(k("a"), 1);
    m.insert(k("c"), 3);
    m.insert_at(1, k("b"), 2);
    m.insert_at(3, k("d"), 4);
    m.insert_at(0, k("start"), 0);
    assert_eq!(keys_of(&m), vec![k("start"), k("a"), k("b"), k("c"), k("d")]);
    assert_eq!(m.get(&k("b")), Some(&2));
}

#[test]
fn map_overlay_prefers_the_other_map() {
    let mut base: StrMap<String> = StrMap::new();
    base.insert(k("a"), k("base-a"));
    base.insert(k("b"), k("base-b"));
    let mut top: StrMap<String> = StrMap::new();
    top.insert(k("b"), k("top-b"));
    top.insert(k("c"), k("top-c"));
    base.overlay(&top);
    assert_eq!(base.len(), 3);
    assert_eq!(base.get(&k("a")), Some(&k("base-a")));
    assert_eq!(base.get(&k("b")), Some(&k("top-b")));
    assert_eq!(base.get(&k("c")), Some(&k("top-c")));
    assert_eq!(top.len(), 2);
    let copy = base.copy();
    assert_eq!(keys_of(&copy), keys_of(&base));
    assert_eq!(copy.get(&k("b")), Some(&k("top-b")));
    let clone = base.clone();
    assert_eq!(keys_of(&clone), keys_of(&base));
}

#[test]
fn table_keeps_snapshots_under_their_ids() {
    let mut t = SnapshotTable::new();
    assert!(t.is_empty());
    assert!(t.insert(ConnectionCache::placeholder(k("a"), 0, None)).is_none());
    assert!(t.insert(ConnectionCache::placeholder(k("b"), 1, None)).is_none());
    let previous = t.insert(ConnectionCache::placeholder(k("a"), 9, None)).unwrap();
    assert_eq!(previous.account_index, 0);
    assert_eq!(table_ids(&t), vec![k("a"), k("b")]);
    assert_eq!(t.get(&k("a")).unwrap().account_index, 9);
    assert_eq!(t.snapshot_at(1).connection_id, "b");
    assert!(t.contains(&k("b")));
    assert!(t.get(&k("c")).is_none());
    let copy = t.clone();
    assert_eq!(t.remove(&k("a")).unwrap().account_index, 9);
    assert!(t.remove(&k("a")).is_none());
    assert_eq!(t.take_first().unwrap().connection_id, "b");
    assert!(t.take_first().is_none());
    assert_eq!(table_ids(&copy), vec![k("a"), k("b")]);
}

#[test]
fn table_upsert_refreshes_in_place() {
    let mut t = SnapshotTable::new();
    let mut a = ConnectionCache::placeholder(k("a"), 4, None);
    a.last_ping = Some(1);
    t.insert(a);
    t.insert(ConnectionCache::placeholder(k("b"), 5, None));
    let mut fresh = ConnectionCache::placeholder(k("a"), 0, None);
    fresh.status = ConnectionStatus::Connected;
    fresh.channels = vec![k("x")];
    t.upsert(fresh);
    t.upsert(ConnectionCache::placeholder(k("c"), 6, None));
    assert_eq!(table_ids(&t), vec![k("a"), k("b"), k("c")]);
    let a = t.get(&k("a")).unwrap();
    assert_eq!(a.account_index, 4);
    assert_eq!(a.last_ping, Some(1));
    assert_eq!(a.status, ConnectionStatus::Connected);
    assert_eq!(a.channels, vec![k("x")]);
    assert_eq!(t.get(&k("c")).unwrap().account_index, 6);
}

#[test]
fn table_absorb_and_retain() {
    let mut t = SnapshotTable::new();
    t.insert(ConnectionCache::placeholder(k("a"), 0, None));
    t.insert(ConnectionCache::placeholder(k("b"), 1, None));
    let mut fresh = SnapshotTable::new();
    let mut b = ConnectionCache::placeholder(k("b"), 0, None);
    b.status = ConnectionStatus::Disconnected;
    fresh.insert(ConnectionCache::placeholder(k("c"), 2, None));
    fresh.insert(b);
    t.absorb(fresh);
    assert_eq!(table_ids(&t), vec![k("a"), k("b"), k("c")]);
    assert_eq!(t.get(&k("b")).unwrap().status, ConnectionStatus::Disconnected);
    assert_eq!(t.get(&k("b")).unwrap().account_index, 1);
    t.retain_listed(&vec![k("c"), k("a"), k("zzz")]);
    assert_eq!(table_ids(&t), vec![k("a"), k("c")]);
    t.retain_listed(&Vec::new());
    assert!(t.is_empty());
}

#[test]
fn snapshot_clone_is_deep() {
    let mut snap = ConnectionCache::placeholder(k("a"), 3, Some(k("u")));
    let mut channel = ChannelState::new(Channel {
        id: k("lobby"),
        name: Some(k("Lobby")),
        channel_type: ChannelType::Direct,
    });
    channel.users.insert(k("u"), Profile::with_id(k("u")));
    channel.messages.push(Message {
        id: Some(k("m")),
        sender_id: None,
        content: vec![
            MessageFragment::Image { url: k("i"), mime: k("image/png") },
            MessageFragment::AssetId(k("smile")),
        ],
        timestamp: 4,
        message_type: MessageType::Server,
        status: MessageStatus::Delivered,
    });
    snap.current_channel = Some(channel);
    snap.assets.insert(
        k("cmd"),
        Asset::Command {
            id: Some(k("c")),
            pattern: k("/me"),
            args: vec![MessageFragment::Text(k("action"))],
            source: AssetSource::Meta,
        },
    );
    snap.channels = vec![k("lobby")];
    snap.last_ping = Some(8);
    let copy = snap.clone();
    assert_eq!(copy.connection_id, snap.connection_id);
    assert_eq!(copy.account_index, 3);
    assert_eq!(copy.channels, snap.channels);
    assert_eq!(copy.current_user, snap.current_user);
    assert_eq!(copy.last_ping, Some(8));
    let (a, b) = (copy.current_channel.unwrap(), snap.current_channel.unwrap());
    assert_eq!(a.channel, b.channel);
    assert_eq!(a.messages, b.messages);
    assert_eq!(a.users.get(&k("u")), b.users.get(&k("u")));
    assert_eq!(copy.assets.get(&k("cmd")), snap.assets.get(&k("cmd")));
}

#[test]
fn text_helpers() {
    assert!(same_text(&k("a"), &k("a")));
    assert!(!same_text(&k("a"), &k("b")));
    assert!(same_opt_text(&None, &None));
    assert!(same_opt_text(&Some(k("a")), &Some(k("a"))));
    assert!(!same_opt_text(&Some(k("a")), &None));
    assert!(!same_opt_text(&Some(k("a")), &Some(k("b"))));
    assert_eq!(copy_opt_text(&Some(k("a"))), Some(k("a")));
    assert_eq!(copy_opt_text(&None), None);
    assert_eq!(copy_texts(&vec![k("a"), k("b")]), vec![k("a"), k("b")]);
    assert!(is_text(&k("uid"), "uid"));
    assert!(!is_text(&k("uid "), "uid"));
    assert!(contains_text(&vec![k("a"), k("b")], &k("b")));
    assert!(!contains_text(&vec![k("a"), k("b")], &k("c")));
}

#[test]
fn fragments_compare_by_kind_and_text() {
    let img = |url: &str, mime: &str| MessageFragment::Image { url: k(url), mime: k(mime) };
    assert!(img("u", "m").same(&img("u", "m")));
    assert!(!img("u", "m").same(&img("u", "x")));
    assert!(!img("u", "m").same(&MessageFragment::Video { url: k("u"), mime: k("m") }));
    assert!(MessageFragment::Url(k("u")).same(&MessageFragment::Url(k("u"))));
    assert!(!MessageFragment::Url(k("u")).same(&MessageFragment::Text(k("u"))));
    assert!(MessageFragment::AssetId(k("a")).same(&MessageFragment::AssetId(k("a")).clone()));
    let audio = MessageFragment::Audio { url: k("u"), mime: k("m") };
    assert!(audio.same(&audio.clone()));
}

#[test]
fn defaults_of_the_model() {
    assert_eq!(ConnectionStatus::default(), ConnectionStatus::Disconnected);
    assert_eq!(ChannelType::default(), ChannelType::Group);
    assert_eq!(
        Profile::default(),
        Profile { id: None, username: None, display_name: None, color: None, picture: None }
    );
}
