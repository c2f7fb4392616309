use p2p_node::history::{HistoryEntry, SyncMessage};
use p2p_node::message_id::message_id;
use p2p_node::node::{Lifecycle, Node, NodeError, NodeEvent, Notification};
use p2p_node::peers::PeerRegistry;
use libp2p::gossipsub;
use libp2p::identity::Keypair;

fn gossip() -> gossipsub::Behaviour {
    gossipsub::Behaviour::new(
        gossipsub::MessageAuthenticity::Signed(Keypair::generate_ed25519()),
        gossipsub::Config::default(),
    )
    .unwrap()
}

fn listening_node(g: &mut gossipsub::Behaviour) -> Node {
    let mut n = Node::new();
    n.initialize(g).unwrap();
    assert!(n.listen_plan(4001).is_ok());
    n.listening_started();
    n
}

fn entry(url: &str) -> HistoryEntry {
    HistoryEntry {
        url: url.to_string(),
        title: "Title".to_string(),
        visit_time: 1_700_000_000_000,
        duration: Some(30),
        device_id: "laptop".to_string(),
        is_article: true,
        content: None,
        reading_time: Some(4),
    }
}

#[test]
fn new_node_is_created_without_room() {
    let n = Node::new();
    assert_eq!(n.lifecycle(), Lifecycle::Created);
    assert!(n.active_room().is_none());
}

#[test]
fn peer_id_is_stable_and_non_empty() {
    let mut g = gossip();
    let mut n = Node::new();
    let a = n.get_peer_id();
    assert!(!a.is_empty());
    n.initialize(&mut g).unwrap();
    assert_eq!(n.get_peer_id(), a);
    n.listening_started();
    n.join_room(&mut g, "r").unwrap();
    assert_eq!(n.get_peer_id(), a);
}

#[test]
fn two_nodes_have_different_peer_ids() {
    assert_ne!(Node::new().get_peer_id(), Node::new().get_peer_id());
}

#[test]
fn send_without_room_fails_with_not_in_room() {
    let mut g = gossip();
    let n = Node::new();
    assert_eq!(n.send_message(&mut g, b"hello").err(), Some(NodeError::NotInRoomError));
    let m = listening_node(&mut g);
    assert_eq!(m.publication(b"hello").err(), Some(NodeError::NotInRoomError));
    assert_eq!(m.send_message(&mut g, b"hello").err(), Some(NodeError::NotInRoomError));
}

#[test]
fn listen_before_initialize_fails() {
    let n = Node::new();
    assert_eq!(n.listen_plan(4001).err(), Some(NodeError::NotInitializedError));
}

#[test]
fn listen_plan_addresses() {
    let mut g = gossip();
    let mut n = Node::new();
    n.initialize(&mut g).unwrap();
    let p = n.listen_plan(4001).unwrap();
    assert_eq!(p.tcp_addr, "/ip4/0.0.0.0/tcp/4001");
    assert_eq!(p.quic_addr, "/ip4/0.0.0.0/udp/0/quic-v1");
}

#[test]
fn initialize_subscribes_sync_topic() {
    let mut g = gossip();
    let mut n = Node::new();
    assert!(!n.is_subscribed(&"bar123-history-sync".to_string()));
    n.initialize(&mut g).unwrap();
    assert_eq!(n.lifecycle(), Lifecycle::Initialized);
    assert!(n.is_subscribed(&"bar123-history-sync".to_string()));
    assert_eq!(g.topics().map(|t| t.to_string()).collect::<Vec<_>>(), vec!["bar123-history-sync"]);
}

#[test]
fn join_before_listening_fails_and_changes_nothing() {
    let mut g = gossip();
    let mut n = Node::new();
    assert_eq!(n.join_room(&mut g, "family").err(), Some(NodeError::NotInitializedError));
    n.initialize(&mut g).unwrap();
    assert_eq!(n.join_room(&mut g, "family").err(), Some(NodeError::NotInitializedError));
    assert!(n.active_room().is_none());
    assert!(!n.is_subscribed(&"bar123-room-family".to_string()));
    assert_eq!(g.topics().count(), 1);
}

#[test]
fn send_after_join_goes_to_room_topic() {
    let mut g = gossip();
    let mut n = listening_node(&mut g);
    assert_eq!(n.join_room(&mut g, "family").unwrap(), "bar123-room-family");
    assert!(g.topics().any(|t| t.as_str() == "bar123-room-family"));
    let p = n.publication(b"hello").unwrap();
    assert_eq!(p.topic, "bar123-room-family");
    assert_eq!(p.message_id, message_id(b"hello"));
    // No peer is connected, so the messaging layer refuses to publish.
    assert_eq!(n.send_message(&mut g, b"hello").err(), Some(NodeError::DisseminationError));
}

#[test]
fn same_payload_twice_gets_one_identifier() {
    let mut g = gossip();
    let mut n = listening_node(&mut g);
    n.join_room(&mut g, "family").unwrap();
    let a = n.publication(b"dup").unwrap();
    let b = n.publication(b"dup").unwrap();
    assert_eq!(a.message_id, b.message_id);
    assert_eq!(a.topic, b.topic);
}

#[test]
fn rejoin_keeps_earlier_subscription() {
    let mut g = gossip();
    let mut n = listening_node(&mut g);
    n.join_room(&mut g, "one").unwrap();
    n.join_room(&mut g, "two").unwrap();
    assert_eq!(n.active_room(), Some("bar123-room-two".to_string()));
    assert!(n.is_subscribed(&"bar123-room-one".to_string()));
    assert!(n.is_subscribed(&"bar123-room-two".to_string()));
    n.join_room(&mut g, "two").unwrap();
    assert_eq!(n.publication(b"x").unwrap().topic, "bar123-room-two");
    assert_eq!(g.topics().count(), 3);
}

#[test]
fn reinitialize_resets_room_and_keeps_peers() {
    let mut g = gossip();
    let mut n = listening_node(&mut g);
    n.join_room(&mut g, "family").unwrap();
    n.handle_event(NodeEvent::Connected { peer_id: "peerA".to_string() });
    let mut fresh = gossip();
    n.initialize(&mut fresh).unwrap();
    assert_eq!(n.lifecycle(), Lifecycle::Initialized);
    assert!(n.active_room().is_none());
    assert!(!n.is_subscribed(&"bar123-room-family".to_string()));
    assert_eq!(n.peer_status(&"peerA".to_string()), Some(true));
    assert_eq!(n.send_message(&mut fresh, b"x").err(), Some(NodeError::NotInRoomError));
}

#[test]
fn history_sync_needs_room() {
    let mut g = gossip();
    let n = listening_node(&mut g);
    let r = n.history_sync_envelope(vec![entry("https://a")], "phone".to_string(), 5);
    assert_eq!(r.err(), Some(NodeError::NotInRoomError));
}

#[test]
fn history_sync_envelope_fields() {
    let mut g = gossip();
    let mut n = listening_node(&mut g);
    n.join_room(&mut g, "family").unwrap();
    let entries = vec![entry("https://a"), entry("https://b")];
    let before: i64 = 1_000;
    let m = n.history_sync_envelope(entries.clone(), "phone".to_string(), before + 1).unwrap();
    assert_eq!(m.message_type, "history_sync");
    assert_eq!(m.entries, entries);
    assert_eq!(m.device_id, "phone");
    assert!(m.timestamp >= before);
}

#[test]
fn history_sync_constructor() {
    let m = SyncMessage::history_sync(vec![], "tablet".to_string(), 42);
    assert_eq!(m.message_type, "history_sync");
    assert!(m.entries.is_empty());
    assert_eq!(m.device_id, "tablet");
    assert_eq!(m.timestamp, 42);
}

#[test]
fn connect_and_disconnect_are_reported() {
    let mut g = gossip();
    let mut n = listening_node(&mut g);
    let peer = "12D3KooWPeer".to_string();
    match n.handle_event(NodeEvent::Connected { peer_id: peer.clone() }) {
        Some(Notification::Peer { peer_id, joined }) => {
            assert_eq!(peer_id, peer);
            assert!(joined);
        }
        _ => panic!("expected a peer notification"),
    }
    assert_eq!(n.peer_status(&peer), Some(true));
    match n.handle_event(NodeEvent::Disconnected { peer_id: peer.clone() }) {
        Some(Notification::Peer { peer_id, joined }) => {
            assert_eq!(peer_id, peer);
            assert!(!joined);
        }
        _ => panic!("expected a peer notification"),
    }
    assert_eq!(n.peer_status(&peer), Some(false));
}

#[test]
fn discovery_records_without_reporting() {
    let mut g = gossip();
    let mut n = listening_node(&mut g);
    let a = "peerA".to_string();
    let b = "peerB".to_string();
    assert!(n.handle_event(NodeEvent::Discovered { peer_id: a.clone() }).is_none());
    assert_eq!(n.peer_status(&a), Some(false));
    n.handle_event(NodeEvent::Connected { peer_id: b.clone() });
    assert!(n.handle_event(NodeEvent::Discovered { peer_id: b.clone() }).is_none());
    assert_eq!(n.peer_status(&b), Some(true));
    assert_eq!(n.peer_status(&"unknown".to_string()), None);
}

#[test]
fn inbound_message_is_passed_on() {
    let mut g = gossip();
    let mut n = listening_node(&mut g);
    let ev = NodeEvent::Message {
        peer_id: "peerA".to_string(),
        topic: "bar123-room-family".to_string(),
        data: b"hello".to_vec(),
    };
    match n.handle_event(ev) {
        Some(Notification::Message { peer_id, topic, data }) => {
            assert_eq!(peer_id, "peerA");
            assert_eq!(topic, "bar123-room-family");
            assert_eq!(data, b"hello".to_vec());
        }
        _ => panic!("expected a message notification"),
    }
    assert_eq!(n.peer_status(&"peerA".to_string()), None);
}

#[test]
fn registry_updates_in_place() {
    let mut r = PeerRegistry::new();
    let a = "a".to_string();
    assert_eq!(r.status(&a), None);
    r.set_status(a.clone(), true);
    r.set_status("b".to_string(), true);
    r.set_status(a.clone(), false);
    assert_eq!(r.status(&a), Some(false));
    assert_eq!(r.status(&"b".to_string()), Some(true));
    r.note_discovered("b".to_string());
    assert_eq!(r.status(&"b".to_string()), Some(true));
    r.note_discovered("c".to_string());
    assert_eq!(r.status(&"c".to_string()), Some(false));
}

#[test]
fn repeated_join_of_same_room_succeeds_unchanged() {
    let mut g = gossip();
    let mut n = listening_node(&mut g);
    assert_eq!(n.join_room(&mut g, "family").unwrap(), "bar123-room-family");
    assert_eq!(n.join_room(&mut g, "family").unwrap(), "bar123-room-family");
    assert_eq!(n.active_room(), Some("bar123-room-family".to_string()));
    assert!(n.is_subscribed(&"bar123-history-sync".to_string()));
    assert!(n.is_subscribed(&"bar123-room-family".to_string()));
    assert_eq!(g.topics().count(), 2);
}
