//! Lifecycle behaviour of the coordinator: create, signal, free, and the
//! interleavings the unordered streams can produce.

use ebpfccp::bridge::BridgeMessage;
use ebpfccp::codec::{DecodeError, CREATE_RECORD_BYTES, FREE_RECORD_BYTES, SIGNAL_RECORD_BYTES};
use ebpfccp::codec::{encode_create, encode_free, encode_signal};
use ebpfccp::events::{CreateConnEvent, FreeConnEvent, Signal};
use ebpfccp::lifecycle::FlowEvent;
use ebpfccp::manager::Manager;

fn create_event(sock_addr: u64) -> CreateConnEvent {
    CreateConnEvent {
        sock_addr,
        src_ip: 0x0A00_0001,
        dst_ip: 0x0A00_0002,
        src_port: 1234,
        dst_port: 80,
        init_cwnd: 10,
        mss: 1460,
    }
}

fn signal_event(sock_addr: u64, bytes_acked: u32) -> Signal {
    Signal {
        sock_addr,
        rate_outgoing: 0,
        rate_incoming: 0,
        bytes_acked,
        packets_acked: 1,
        bytes_misordered: 0,
        packets_misordered: 0,
        lost_pkts_sample: 0,
        rtt_sample_us: 350,
        bytes_in_flight: 0,
        packets_in_flight: 0,
        snd_cwnd: 10,
        bytes_pending: 0,
    }
}

#[test]
fn create_registers_exactly_one_connection() {
    let mut m = Manager::new();
    m.handle_create(&create_event(0x1));
    assert!(m.connections.contains(0x1));
    let listed = m.list_connections();
    assert_eq!(listed, vec![(0x1, 0)]);
}

#[test]
fn free_unregisters_the_connection() {
    let mut m = Manager::new();
    m.handle_create(&create_event(0x1));
    let detached = m.handle_free(&FreeConnEvent { sock_addr: 0x1 });
    assert!(detached.is_some());
    assert!(!m.connections.contains(0x1));
    assert_eq!(m.list_connections(), vec![]);
}

#[test]
fn free_of_unknown_identity_is_a_noop() {
    let mut m = Manager::new();
    m.handle_create(&create_event(0x2));
    let detached = m.handle_free(&FreeConnEvent { sock_addr: 0x1 });
    assert!(detached.is_none());
    assert_eq!(m.list_connections(), vec![(0x2, 0)]);
}

#[test]
fn signal_updates_the_stored_snapshot() {
    let mut m = Manager::new();
    m.handle_create(&create_event(0x1));
    m.handle_signal(&signal_event(0x1, 1460));
    assert_eq!(m.list_connections(), vec![(0x1, 1460)]);
    m.handle_signal(&signal_event(0x1, 2920));
    assert_eq!(m.list_connections(), vec![(0x1, 2920)]);
}

#[test]
fn signal_without_prior_create_is_dropped() {
    let mut m = Manager::new();
    m.handle_signal(&signal_event(0x1, 1460));
    assert!(!m.connections.contains(0x1));
    assert_eq!(m.list_connections(), vec![]);
    assert_eq!(m.datapath.pending(), 0);
}

#[test]
fn signal_after_free_is_dropped() {
    let mut m = Manager::new();
    m.handle_create(&create_event(0x1));
    m.handle_free(&FreeConnEvent { sock_addr: 0x1 });
    let pending_before = m.datapath.pending();
    m.handle_signal(&signal_event(0x1, 1460));
    assert!(!m.connections.contains(0x1));
    assert_eq!(m.datapath.pending(), pending_before);
}

#[test]
fn recreate_replaces_without_duplicate() {
    let mut m = Manager::new();
    m.handle_create(&create_event(0x1));
    m.handle_signal(&signal_event(0x1, 1460));
    assert_eq!(m.list_connections(), vec![(0x1, 1460)]);
    m.handle_create(&create_event(0x1));
    // One entry only, and it is the fresh state of the second create.
    assert_eq!(m.list_connections(), vec![(0x1, 0)]);
}

#[test]
fn create_announces_the_flow_to_the_bridge() {
    let mut m = Manager::new();
    let ev = create_event(0x1);
    m.handle_create(&ev);
    let msg = m.datapath.next_outbound();
    assert_eq!(
        msg,
        Some(BridgeMessage::Create {
            sock_addr: 0x1,
            src_ip: 0x0A00_0001,
            dst_ip: 0x0A00_0002,
            src_port: 1234,
            dst_port: 80,
            init_cwnd: 10,
            mss: 1460,
        })
    );
    assert_eq!(m.datapath.next_outbound(), None);
}

#[test]
fn list_connections_is_in_registration_order() {
    let mut m = Manager::new();
    m.handle_create(&create_event(3));
    m.handle_create(&create_event(1));
    m.handle_create(&create_event(2));
    assert_eq!(m.list_connections(), vec![(3, 0), (1, 0), (2, 0)]);
    m.handle_free(&FreeConnEvent { sock_addr: 1 });
    assert_eq!(m.list_connections(), vec![(3, 0), (2, 0)]);
    m.handle_create(&create_event(1));
    assert_eq!(m.list_connections(), vec![(3, 0), (2, 0), (1, 0)]);
}

#[test]
fn handle_event_dispatches_by_stream() {
    let mut m = Manager::new();
    m.handle_event(&FlowEvent::Create(create_event(0x1)));
    assert!(m.connections.contains(0x1));
    m.handle_event(&FlowEvent::Signal(signal_event(0x1, 100)));
    assert_eq!(m.list_connections(), vec![(0x1, 100)]);
    m.handle_event(&FlowEvent::Free(FreeConnEvent { sock_addr: 0x1 }));
    assert!(!m.connections.contains(0x1));
}

#[test]
fn record_handlers_accept_well_sized_records() {
    let mut m = Manager::new();
    let create = encode_create(&create_event(0x1));
    assert!(m.handle_create_record(&create).is_ok());
    assert!(m.connections.contains(0x1));

    let signal = encode_signal(&signal_event(0x1, 1460));
    assert!(m.handle_signal_record(&signal).is_ok());
    assert_eq!(m.list_connections(), vec![(0x1, 1460)]);

    let free = encode_free(&FreeConnEvent { sock_addr: 0x1 });
    assert!(m.handle_free_record(&free).is_ok());
    assert!(!m.connections.contains(0x1));
}

#[test]
fn record_handlers_reject_wrong_sizes() {
    let mut m = Manager::new();
    let short = vec![0u8; 7];
    assert_eq!(
        m.handle_signal_record(&short),
        Err(DecodeError::WrongLength { expected: SIGNAL_RECORD_BYTES, actual: 7 })
    );
    assert_eq!(
        m.handle_create_record(&short),
        Err(DecodeError::WrongLength { expected: CREATE_RECORD_BYTES, actual: 7 })
    );
    assert_eq!(
        m.handle_free_record(&short),
        Err(DecodeError::WrongLength { expected: FREE_RECORD_BYTES, actual: 7 })
    );
    assert_eq!(m.list_connections(), vec![]);
}
