use relay_node::addr::{Addr, Protocol};
use relay_node::connections::{ConnectedPoint, Endpoint};
use relay_node::node::{Command, Node, NodeConfig, NodeEvent};

fn addr(parts: Vec<Protocol>) -> Addr {
    Addr::from_parts(parts)
}

fn chars(s: &str) -> Vec<char> {
    s.chars().collect()
}

fn config() -> NodeConfig {
    NodeConfig {
        listen_relayed: false,
        connect: vec![],
        peer: None,
        kad: false,
        kad_put: None,
        kad_get: None,
    }
}

fn dialer(parts: Vec<Protocol>) -> ConnectedPoint {
    ConnectedPoint::Dialer { address: addr(parts), role_override: Endpoint::Dialer }
}

fn relayed_listener(relay: u64) -> ConnectedPoint {
    ConnectedPoint::Listener {
        local_addr: addr(vec![Protocol::Ip4(1), Protocol::Tcp(4001), Protocol::P2p(relay), Protocol::P2pCircuit]),
        send_back_addr: addr(vec![Protocol::P2pCircuit]),
    }
}

fn established(peer: u64, connection: u64, endpoint: ConnectedPoint) -> NodeEvent {
    NodeEvent::ConnectionEstablished { peer, connection, endpoint }
}

#[test]
fn relay_server_gets_one_listen_through_it() {
    let mut cfg = config();
    cfg.listen_relayed = true;
    let mut node = Node::new(cfg);
    let relay_addr = vec![Protocol::Ip4(0x7f000001), Protocol::Tcp(4001), Protocol::P2p(7)];
    assert!(node.handle_event(established(7, 1, dialer(relay_addr.clone()))).is_empty());
    let cmds = node.handle_event(NodeEvent::IdentifyReceived { peer: 7, relay_hop: true });
    let mut expected = relay_addr.clone();
    expected.push(Protocol::P2pCircuit);
    assert_eq!(cmds, vec![Command::ListenOn(addr(expected))]);
}

#[test]
fn no_relay_listen_without_the_option_or_the_hop() {
    let relay_addr = vec![Protocol::Ip4(1), Protocol::Tcp(4001)];
    let mut node = Node::new(config());
    node.handle_event(established(7, 1, dialer(relay_addr.clone())));
    assert!(node.handle_event(NodeEvent::IdentifyReceived { peer: 7, relay_hop: true }).is_empty());
    let mut cfg = config();
    cfg.listen_relayed = true;
    let mut node = Node::new(cfg);
    node.handle_event(established(7, 1, dialer(relay_addr)));
    assert!(node.handle_event(NodeEvent::IdentifyReceived { peer: 7, relay_hop: false }).is_empty());
}

#[test]
fn no_relay_listen_without_a_plain_dial() {
    let mut cfg = config();
    cfg.listen_relayed = true;
    let mut node = Node::new(cfg);
    let overridden = ConnectedPoint::Dialer {
        address: addr(vec![Protocol::Ip4(1), Protocol::Tcp(4001)]),
        role_override: Endpoint::Listener,
    };
    node.handle_event(established(7, 1, overridden));
    node.handle_event(established(7, 2, relayed_listener(3)));
    assert!(node.handle_event(NodeEvent::IdentifyReceived { peer: 7, relay_hop: true }).is_empty());
}

#[test]
fn configured_peer_is_dialed_after_a_start_target_identifies() {
    let mut cfg = config();
    cfg.connect = vec![addr(vec![Protocol::Ip4(1), Protocol::Tcp(4001), Protocol::P2p(5)])];
    cfg.peer = Some(addr(vec![Protocol::Ip4(1), Protocol::Tcp(4001), Protocol::P2p(5), Protocol::P2pCircuit, Protocol::P2p(6)]));
    let mut node = Node::new(cfg);
    let cmds = node.handle_event(NodeEvent::IdentifyReceived { peer: 5, relay_hop: false });
    assert_eq!(
        cmds,
        vec![Command::Dial(addr(vec![Protocol::Ip4(1), Protocol::Tcp(4001), Protocol::P2p(5), Protocol::P2pCircuit, Protocol::P2p(6)]))]
    );
    assert!(node.handle_event(NodeEvent::IdentifyReceived { peer: 9, relay_hop: false }).is_empty());
}

#[test]
fn relayed_connection_stays_until_closed() {
    let mut node = Node::new(config());
    node.handle_event(established(4, 10, relayed_listener(3)));
    node.handle_event(established(4, 11, dialer(vec![Protocol::Ip4(2), Protocol::Tcp(1)])));
    assert!(node.tracker.is_relayed_connection(4, 10));
    assert!(!node.tracker.is_relayed_connection(4, 11));
    node.handle_event(NodeEvent::Reachability);
    node.handle_event(NodeEvent::Other);
    node.handle_event(NodeEvent::RoutingUpdated { peer: 4 });
    node.handle_event(NodeEvent::DirectUpgradeSucceeded { peer: 5 });
    node.handle_event(NodeEvent::ConnectionClosed { peer: 4, connection: 11 });
    assert!(node.tracker.is_relayed_connection(4, 10));
    node.handle_event(NodeEvent::ConnectionClosed { peer: 4, connection: 10 });
    assert!(!node.tracker.is_relayed_connection(4, 10));
    assert!(!node.tracker.has_relayed_set(4));
}

#[test]
fn direct_upgrade_closes_every_relayed_connection() {
    let mut node = Node::new(config());
    node.handle_event(established(4, 1, relayed_listener(3)));
    node.handle_event(established(4, 2, relayed_listener(8)));
    node.handle_event(established(4, 3, dialer(vec![Protocol::Ip4(2), Protocol::Tcp(1)])));
    let mut cmds = node.handle_event(NodeEvent::DirectUpgradeSucceeded { peer: 4 });
    cmds.sort_by_key(|c| match c {
        Command::Close(id) => *id,
        _ => u64::MAX,
    });
    assert_eq!(cmds, vec![Command::Close(1), Command::Close(2)]);
    assert!(!node.tracker.has_relayed_set(4));
    assert!(node.tracker.has_connection(4, 1));
    assert!(node.handle_event(NodeEvent::DirectUpgradeSucceeded { peer: 4 }).is_empty());
}

#[test]
fn table_operations_wait_for_a_routing_update() {
    let mut cfg = config();
    cfg.kad = true;
    cfg.kad_put = Some(chars("colour: blue"));
    cfg.kad_get = Some(chars(" colour "));
    let mut node = Node::new(cfg);
    let before = vec![
        node.handle_event(established(2, 1, dialer(vec![Protocol::Ip4(2), Protocol::Tcp(1)]))),
        node.handle_event(NodeEvent::IdentifyReceived { peer: 2, relay_hop: true }),
        node.handle_event(NodeEvent::Reachability),
        node.handle_event(NodeEvent::ConnectionClosed { peer: 2, connection: 1 }),
    ];
    assert!(before.iter().all(|c| c.is_empty()));
    let expected = vec![
        Command::PutRecord { key: chars("colour"), value: chars("blue"), peer: 2 },
        Command::GetRecord { key: chars("colour") },
    ];
    assert_eq!(node.handle_event(NodeEvent::RoutingUpdated { peer: 2 }), expected);
    let again = node.handle_event(NodeEvent::RoutingUpdated { peer: 3 });
    assert_eq!(again.len(), 2);
    assert_eq!(again[0], Command::PutRecord { key: chars("colour"), value: chars("blue"), peer: 3 });
}

#[test]
fn table_operations_need_the_routing_table() {
    let mut cfg = config();
    cfg.kad_put = Some(chars("a:b"));
    cfg.kad_get = Some(chars("a"));
    let mut node = Node::new(cfg);
    assert!(node.handle_event(NodeEvent::RoutingUpdated { peer: 2 }).is_empty());
}

#[test]
fn closing_the_last_connection_drops_the_peer() {
    let mut node = Node::new(config());
    node.handle_event(established(1, 1, dialer(vec![Protocol::Ip4(2), Protocol::Tcp(1)])));
    node.handle_event(established(1, 2, dialer(vec![Protocol::Ip4(2), Protocol::Tcp(1)])));
    node.handle_event(NodeEvent::ConnectionClosed { peer: 1, connection: 1 });
    assert!(node.tracker.has_peer(1));
    assert!(!node.tracker.has_connection(1, 1));
    assert!(node.tracker.has_connection(1, 2));
    node.handle_event(NodeEvent::ConnectionClosed { peer: 1, connection: 2 });
    assert!(!node.tracker.has_peer(1));
}

#[test]
fn relayed_peer_upgrades_to_direct() {
    let relay: u64 = 100;
    let b: u64 = 200;
    let relay_addr = vec![Protocol::Ip4(0x0a000001), Protocol::Tcp(4001), Protocol::P2p(relay)];
    let mut via_relay = relay_addr.clone();
    via_relay.extend([Protocol::P2pCircuit, Protocol::P2p(b)]);
    let mut cfg = config();
    cfg.connect = vec![addr(relay_addr.clone())];
    let mut node = Node::new(cfg);
    assert!(node.handle_event(established(relay, 1, dialer(relay_addr))).is_empty());
    assert!(node.handle_event(established(b, 2, dialer(via_relay))).is_empty());
    assert!(node.handle_event(NodeEvent::IdentifyReceived { peer: b, relay_hop: true }).is_empty());
    assert!(node.tracker.is_relayed_connection(b, 2));
    let direct = ConnectedPoint::Dialer {
        address: addr(vec![Protocol::Ip4(0x0a000002), Protocol::Tcp(4002), Protocol::P2pWebRtcDirect]),
        role_override: Endpoint::Listener,
    };
    assert!(node.handle_event(established(b, 3, direct)).is_empty());
    let cmds = node.handle_event(NodeEvent::DirectUpgradeSucceeded { peer: b });
    assert_eq!(cmds, vec![Command::Close(2)]);
    assert!(!node.tracker.has_relayed_set(b));
    node.handle_event(NodeEvent::ConnectionClosed { peer: b, connection: 2 });
    assert!(node.tracker.has_connection(b, 3));
    assert!(!node.tracker.has_connection(b, 2));
}
