use udptcp::addr::{Endpoint, Ipv4};
use udptcp::registry::PeerRegistry;

fn peer(last: u8, port: u16) -> Endpoint {
    Endpoint::v4(Ipv4(192, 168, 1, last), port)
}

#[test]
fn registry_starts_empty() {
    let r = PeerRegistry::new();
    assert_eq!(r.len(), 0);
    assert_eq!(r.snapshot(), vec![]);
    assert!(!r.contains(peer(1, 1)));
    assert_eq!(r.position(peer(1, 1)), None);
}

#[test]
fn registry_insert_keeps_order_and_refuses_repeats() {
    let mut r = PeerRegistry::new();
    assert!(r.insert(peer(1, 10)));
    assert!(r.insert(peer(2, 10)));
    assert!(r.insert(peer(1, 11)));
    assert!(!r.insert(peer(2, 10)));
    assert_eq!(r.len(), 3);
    assert_eq!(r.snapshot(), vec![peer(1, 10), peer(2, 10), peer(1, 11)]);
    assert_eq!(r.position(peer(1, 11)), Some(2));
    assert!(r.contains(peer(2, 10)));
}

#[test]
fn registry_remove_takes_exactly_the_peer() {
    let mut r = PeerRegistry::new();
    r.insert(peer(1, 10));
    r.insert(peer(2, 10));
    r.insert(peer(3, 10));
    assert!(r.remove(peer(2, 10)));
    assert_eq!(r.snapshot(), vec![peer(1, 10), peer(3, 10)]);
    assert!(!r.remove(peer(2, 10)));
    assert_eq!(r.snapshot(), vec![peer(1, 10), peer(3, 10)]);
    assert!(r.remove(peer(3, 10)));
    assert!(r.remove(peer(1, 10)));
    assert_eq!(r.len(), 0);
}

#[test]
fn registry_drain_hands_out_everything() {
    let mut r = PeerRegistry::new();
    r.insert(peer(1, 10));
    r.insert(peer(2, 10));
    assert_eq!(r.drain(), vec![peer(1, 10), peer(2, 10)]);
    assert_eq!(r.len(), 0);
    assert_eq!(r.drain(), vec![]);
}
