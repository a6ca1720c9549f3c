use cortex_id::address::parse_bootstrap_addr;
use cortex_id::identity::NodeKey;
use cortex_id::messages::{CommunicatorMessage, Inbound};
use cortex_id::registry::AnnounceMsg;
use cortex_id::runtime::{Action, Command, Node, Note, Phase, Role, QUEUE_CAPACITY};

fn announce(id: &str) -> AnnounceMsg {
    AnnounceMsg {
        node_id: id.to_string(),
        shards: vec!["light".to_string()],
        version: "0.1.0".to_string(),
        vram_free_mb: 0,
    }
}

fn light(now: u64) -> Node {
    Node::new(Role::Light, "me".to_string(), "0.1.0".to_string(), 90_000, now)
}

#[test]
fn self_announcement_is_dropped() {
    let mut node = Node::new(Role::Bootstrap, "boot".to_string(), "0.1.0".to_string(), 90_000, 0);
    let acts = node.on_gossip(Inbound::Announce(announce("boot")), 1000);
    assert_eq!(acts, vec![Action::Log(Note::SelfAnnounceDropped)]);
    assert!(node.registry().get(&"boot".to_string()).is_none());
    assert_eq!(node.registry().snapshot_json(5000, 9), "{\"timestamp\":9,\"nodes\":{}}");
}

#[test]
fn other_announcement_is_recorded() {
    let mut node = light(0);
    let acts = node.on_gossip(Inbound::Announce(announce("peer")), 1000);
    assert_eq!(acts, vec![Action::Log(Note::AnnounceRecorded)]);
    let e = node.registry().get(&"peer".to_string()).unwrap();
    assert_eq!(e.last_seen, 1000);
    assert_eq!(e.shards[0].shard_id, "light");
}

#[test]
fn undecodable_payload_logs_once_and_changes_nothing() {
    let mut node = light(0);
    node.on_gossip(Inbound::Announce(announce("peer")), 1000);
    let before = node.registry().snapshot_json(2000, 0);
    let acts = node.on_gossip(Inbound::Unknown, 2000);
    assert_eq!(acts, vec![Action::Log(Note::UndecodablePayload)]);
    assert_eq!(node.registry().snapshot_json(2000, 0), before);
    let msg = CommunicatorMessage { sender: "x".to_string(), payload: "y".to_string(), timestamp: 1 };
    let acts = node.on_gossip(Inbound::Communicator(msg), 2000);
    assert_eq!(acts, vec![Action::Log(Note::MessageReceived)]);
    assert_eq!(node.registry().snapshot_json(2000, 0), before);
}

#[test]
fn full_queue_drops_the_tick_and_keeps_the_schedule() {
    let mut node = light(0);
    // never drained: each cycle queues a look-up and an announcement
    let mut t = 2000;
    for _ in 0..QUEUE_CAPACITY / 2 {
        assert!(node.on_tick(t).is_empty());
        assert!(node.on_tick(t + 5000).is_empty());
        t += 35_000;
    }
    assert_eq!(node.queued(), QUEUE_CAPACITY);
    assert_eq!(node.next_wakeup(), t);
    let acts = node.on_tick(t);
    assert_eq!(acts, vec![Action::Log(Note::TickDropped(Command::GetProviders))]);
    assert_eq!(node.queued(), QUEUE_CAPACITY);
    // the dropped look-up is not deferred: the next one is a full cycle away
    assert_eq!(node.next_wakeup(), t + 5000);
    let acts = node.on_tick(t + 5000);
    assert_eq!(acts, vec![Action::Log(Note::TickDropped(Command::AnnounceNode))]);
    assert_eq!(node.next_wakeup(), t + 35_000);
    // once a command is taken, the next due tick queues again
    node.on_listen_addr();
    assert_eq!(node.next_command(), Some(Action::GetProviders));
    assert!(node.on_tick(t + 35_000).is_empty());
    assert_eq!(node.queued(), QUEUE_CAPACITY);
}

#[test]
fn light_schedule_alternates_lookup_and_announcement() {
    let mut node = light(100);
    assert_eq!(node.next_wakeup(), 2100);
    assert!(node.on_tick(2099).is_empty());
    assert_eq!(node.queued(), 0);
    node.on_tick(2100);
    assert_eq!(node.queued(), 1);
    assert_eq!(node.next_wakeup(), 7100);
    node.on_tick(7100);
    assert_eq!(node.next_wakeup(), 37_100);
    node.on_listen_addr();
    assert_eq!(node.next_command(), Some(Action::GetProviders));
    assert_eq!(node.next_command(), Some(Action::Announce));
    assert_eq!(node.next_command(), None);
}

#[test]
fn bootstrap_schedule_and_report() {
    let mut node = Node::new(Role::Bootstrap, "boot".to_string(), "0.1.0".to_string(), 90_000, 0);
    assert_eq!(node.next_wakeup(), 30_000);
    node.on_tick(30_000);
    assert_eq!(node.next_wakeup(), 45_000);
    node.on_tick(45_000);
    assert_eq!(node.next_wakeup(), 60_000);
    let acts = node.on_tick(60_000);
    assert_eq!(acts, vec![Action::PrintSnapshot]);
    assert_eq!(node.queued(), 3);
}

#[test]
fn tick_purges_stale_entries() {
    let mut node = Node::new(Role::Light, "me".to_string(), "v".to_string(), 2000, 0);
    node.on_gossip(Inbound::Announce(announce("peer")), 500);
    node.on_tick(2000);
    assert!(node.registry().get(&"peer".to_string()).is_some());
    node.on_tick(2500);
    assert!(node.registry().get(&"peer".to_string()).is_none());
}

#[test]
fn commands_before_listening_do_nothing() {
    let mut node = light(0);
    node.on_tick(2000);
    assert_eq!(node.queued(), 1);
    assert_eq!(node.next_command(), None);
    assert_eq!(node.queued(), 0);
}

#[test]
fn phases_follow_the_life_cycle() {
    let mut node = light(0);
    assert_eq!(node.phase(), Phase::Starting);
    assert_eq!(node.on_announce_published(true), vec![Action::Log(Note::Published)]);
    assert_eq!(node.phase(), Phase::Starting);
    assert_eq!(node.on_listen_addr(), vec![Action::Log(Note::Listening)]);
    assert_eq!(node.phase(), Phase::Listening);
    assert_eq!(node.on_peers_discovered(0), vec![]);
    assert_eq!(node.phase(), Phase::Listening);
    assert_eq!(
        node.on_peers_discovered(2),
        vec![Action::AddDiscoveredPeer(0), Action::AddDiscoveredPeer(1)]
    );
    assert_eq!(node.phase(), Phase::Joined);
    assert_eq!(node.on_announce_published(false), vec![Action::Log(Note::PublishFailed)]);
    assert_eq!(node.phase(), Phase::Joined);
    node.on_announce_published(true);
    assert_eq!(node.phase(), Phase::Running);
    assert_eq!(node.on_peers_expired(), vec![Action::Log(Note::PeersExpired)]);
    node.shutdown();
    assert_eq!(node.phase(), Phase::Shutdown);
}

#[test]
fn start_up_actions_by_role() {
    let boot = Node::new(Role::Bootstrap, "b".to_string(), "v".to_string(), 1, 0);
    let s = boot.start(Some("/ip4/1.2.3.4/udp/1/quic-v1"));
    assert_eq!(s.actions, vec![Action::StartProviding]);
    assert!(s.peer.is_none());

    let node = light(0);
    let s = node.start(None);
    assert_eq!(s.actions, vec![Action::Log(Note::NoBootstrapPeer)]);
    let s = node.start(Some("not an address"));
    assert_eq!(s.actions, vec![Action::Log(Note::BadBootstrapAddr)]);
    assert!(s.peer.is_none());

    let peer = NodeKey::generate().node_id();
    let addr = format!("/ip4/127.0.0.1/udp/4001/quic-v1/p2p/{}", peer);
    let s = node.start(Some(&addr));
    assert_eq!(s.actions, vec![Action::AddBootstrapPeer, Action::DialBootstrapPeer]);
    let b = s.peer.unwrap();
    assert_eq!(b.addr, addr);
    assert_eq!(b.peer_id, peer);
}

#[test]
fn bootstrap_address_needs_a_peer_id() {
    assert!(parse_bootstrap_addr("/ip4/127.0.0.1/udp/4001/quic-v1").is_none());
    assert!(parse_bootstrap_addr("127.0.0.1:4001").is_none());
    assert!(parse_bootstrap_addr("").is_none());
    let peer = NodeKey::generate().node_id();
    let addr = format!("/ip6/::1/udp/9/quic-v1/p2p/{}", peer);
    assert_eq!(parse_bootstrap_addr(&addr).unwrap().peer_id, peer);
}

#[test]
fn announcement_of_each_role() {
    let node = light(0);
    let a = node.announcement();
    assert_eq!(a.node_id, "me");
    assert_eq!(a.shards, vec!["light".to_string()]);
    assert_eq!(a.version, "0.1.0");
    assert_eq!(a.vram_free_mb, 0);
    let boot = Node::new(Role::Bootstrap, "b".to_string(), "2".to_string(), 1, 0);
    assert_eq!(boot.announcement().shards, vec!["bootstrap".to_string()]);
    assert_eq!(boot.role(), Role::Bootstrap);
    assert_eq!(boot.local_id(), "b");
}

#[test]
fn announcement_shape_wins_over_communicator() {
    let msg = CommunicatorMessage { sender: "s".to_string(), payload: "p".to_string(), timestamp: 3 };
    match Inbound::classify(Some(announce("a")), Some(msg)) {
        Inbound::Announce(m) => assert_eq!(m.node_id, "a"),
        _ => panic!("announcement expected"),
    }
    let msg = CommunicatorMessage { sender: "s".to_string(), payload: "p".to_string(), timestamp: 3 };
    assert!(matches!(Inbound::classify(None, Some(msg)), Inbound::Communicator(_)));
    assert!(matches!(Inbound::classify(None, None), Inbound::Unknown));
    assert!(Role::Bootstrap.floods_gossip());
    assert!(!Role::Light.floods_gossip());
}
