//! Ordering of the command queue and of the bridge's outbound path.

use ebpfccp::bridge::{BridgeMessage, Datapath};
use ebpfccp::commands::{CommandQueue, ConnectionMessage};
use ebpfccp::events::Primitives;

#[test]
fn command_queue_is_fifo() {
    let mut q = CommandQueue::new();
    assert!(q.is_empty());
    assert_eq!(q.pop(), None);
    q.push(ConnectionMessage::SetCwnd(1, 10));
    q.push(ConnectionMessage::SetRateAbs(2, 20));
    q.push(ConnectionMessage::SetCwnd(3, 30));
    assert_eq!(q.len(), 3);
    assert_eq!(q.pop(), Some(ConnectionMessage::SetCwnd(1, 10)));
    assert_eq!(q.pop(), Some(ConnectionMessage::SetRateAbs(2, 20)));
    assert_eq!(q.pop(), Some(ConnectionMessage::SetCwnd(3, 30)));
    assert_eq!(q.pop(), None);
    assert!(q.is_empty());
}

#[test]
fn outbound_bridge_messages_keep_emission_order() {
    let mut d = Datapath::new();
    assert_eq!(d.pending(), 0);
    assert_eq!(d.next_outbound(), None);
    let p = Primitives::zero();
    d.send_measurement(1, p);
    d.send_measurement(2, p);
    assert_eq!(d.pending(), 2);
    assert_eq!(d.next_outbound(), Some(BridgeMessage::Measurement { sock_addr: 1, primitives: p }));
    assert_eq!(d.next_outbound(), Some(BridgeMessage::Measurement { sock_addr: 2, primitives: p }));
    assert_eq!(d.next_outbound(), None);
}

#[test]
fn connection_message_reports_its_identity() {
    assert_eq!(ConnectionMessage::SetCwnd(7, 1).sock_addr(), 7);
    assert_eq!(ConnectionMessage::SetRateAbs(9, 1).sock_addr(), 9);
}
