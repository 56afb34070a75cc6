use relay_node::addr::{address_translation, direct_addr_2_normal, is_relayed, Addr, Protocol};
use relay_node::is_holepunch_direct_addr;

fn addr(parts: Vec<Protocol>) -> Addr {
    Addr::from_parts(parts)
}

#[test]
fn direct_tag_is_recognised() {
    let tagged = addr(vec![Protocol::Ip4(0), Protocol::Tcp(4001), Protocol::P2pWebRtcDirect]);
    let plain = addr(vec![Protocol::Ip4(0), Protocol::Tcp(4001)]);
    assert!(is_holepunch_direct_addr(&tagged));
    assert!(!is_holepunch_direct_addr(&plain));
}

#[test]
fn stripping_the_tag_keeps_the_rest_in_order() {
    let tagged = addr(vec![
        Protocol::Ip4(7),
        Protocol::P2pWebRtcDirect,
        Protocol::Tcp(4001),
        Protocol::P2pWebRtcDirect,
    ]);
    let plain = direct_addr_2_normal(&tagged);
    assert_eq!(plain.parts, vec![Protocol::Ip4(7), Protocol::Tcp(4001)]);
    assert!(!is_holepunch_direct_addr(&plain));
}

#[test]
fn circuit_marks_a_relayed_address() {
    let relayed = addr(vec![Protocol::Ip4(1), Protocol::Tcp(1), Protocol::P2p(3), Protocol::P2pCircuit]);
    assert!(is_relayed(&relayed));
    assert!(!is_relayed(&addr(vec![Protocol::Ip4(1), Protocol::Tcp(1)])));
    assert!(!is_relayed(&addr(vec![])));
}

#[test]
fn translation_replaces_the_host() {
    let local = addr(vec![Protocol::Ip4(0), Protocol::Tcp(4001)]);
    let observed = addr(vec![Protocol::Ip4(0x0a000001), Protocol::Tcp(50000)]);
    let t = address_translation(&local, &observed).unwrap();
    assert_eq!(t.parts, vec![Protocol::Ip4(0x0a000001), Protocol::Tcp(4001)]);
}

#[test]
fn translation_needs_hosts_on_both_sides() {
    let local = addr(vec![Protocol::Ip4(0), Protocol::Tcp(4001)]);
    let observed = addr(vec![Protocol::Tcp(50000)]);
    assert!(address_translation(&local, &observed).is_none());
    assert!(address_translation(&addr(vec![Protocol::Tcp(1)]), &local).is_none());
    assert!(address_translation(&addr(vec![]), &local).is_none());
    let dns = addr(vec![Protocol::Dns4(2), Protocol::Tcp(9)]);
    let t = address_translation(&dns, &addr(vec![Protocol::Ip6(1)])).unwrap();
    assert_eq!(t.parts, vec![Protocol::Ip6(1), Protocol::Tcp(9)]);
}

#[test]
fn with_appends_and_duplicate_copies() {
    let a = addr(vec![Protocol::Ip4(1), Protocol::Tcp(2)]);
    let b = a.duplicate().with(Protocol::P2pCircuit);
    assert_eq!(b.parts, vec![Protocol::Ip4(1), Protocol::Tcp(2), Protocol::P2pCircuit]);
    assert_eq!(a.port(), Some(Protocol::Tcp(2)));
    assert_eq!(addr(vec![Protocol::Ip4(1)]).port(), None);
}
