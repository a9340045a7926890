//! The connection registry on its own: insert, overwrite, remove, lookup
//! and enumeration.

use ebpfccp::connection::Connection;
use ebpfccp::events::Primitives;
use ebpfccp::registry::Registry;

#[test]
fn insert_then_get_round_trips() {
    let mut r = Registry::new();
    assert_eq!(r.len(), 0);
    assert!(!r.contains(5));
    r.insert(5, Connection::new(5));
    assert_eq!(r.len(), 1);
    assert!(r.contains(5));
    let c = r.get(5).unwrap();
    assert_eq!(c.socket_addr, 5);
    assert_eq!(c.primitives, Primitives::zero());
    assert_eq!(r.get(6), None);
}

#[test]
fn insert_on_present_identity_overwrites() {
    let mut r = Registry::new();
    r.insert(5, Connection::new(5));
    let mut replacement = Connection::new(5);
    replacement.load_primitives(Primitives { bytes_acked: 7, ..Primitives::zero() });
    r.insert(5, replacement);
    assert_eq!(r.len(), 1);
    assert_eq!(r.get(5).unwrap().primitives.bytes_acked, 7);
    assert_eq!(r.all_identities(), vec![5]);
}

#[test]
fn remove_returns_the_state_and_unregisters() {
    let mut r = Registry::new();
    r.insert(1, Connection::new(1));
    r.insert(2, Connection::new(2));
    let removed = r.remove(1).unwrap();
    assert_eq!(removed.socket_addr, 1);
    assert_eq!(r.remove(1), None);
    assert_eq!(r.len(), 1);
    assert_eq!(r.all_identities(), vec![2]);
}

#[test]
fn all_identities_lists_each_key_once_in_order() {
    let mut r = Registry::new();
    r.insert(3, Connection::new(3));
    r.insert(1, Connection::new(1));
    r.insert(2, Connection::new(2));
    r.insert(1, Connection::new(1));
    assert_eq!(r.all_identities(), vec![3, 1, 2]);
}
