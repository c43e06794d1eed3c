use shop_server::connections::{ConnectedPeers, PeerAddress};

#[test]
fn empty_registry_refuses_nobody() {
    let peers = ConnectedPeers::new();
    assert!(!peers.contains(PeerAddress::V4(0x7f00_0001)));
    assert!(!peers.should_refuse(true, PeerAddress::V4(0x7f00_0001)));
}

#[test]
fn second_connection_refused_with_limit() {
    let mut peers = ConnectedPeers::new();
    let a = PeerAddress::V4(0x0a00_0001);
    peers.insert(a);
    assert!(peers.should_refuse(true, a));
    assert!(!peers.should_refuse(false, a));
    assert!(!peers.should_refuse(true, PeerAddress::V4(0x0a00_0002)));
    assert!(!peers.should_refuse(true, PeerAddress::V6(0x0a00_0001)));
}

#[test]
fn released_address_is_admitted_again() {
    let mut peers = ConnectedPeers::new();
    let a = PeerAddress::V6(1);
    let b = PeerAddress::V6(2);
    peers.insert(a);
    peers.insert(b);
    peers.insert(a);
    peers.remove(a);
    assert!(!peers.contains(a));
    assert!(peers.contains(b));
    assert!(!peers.should_refuse(true, a));
}
