//! Exact wire layout of the three kernel records.

use ebpfccp::codec::{
    decode_create, decode_free, decode_signal, encode_create, encode_free, encode_signal,
    DecodeError, CREATE_RECORD_BYTES, FREE_RECORD_BYTES, SIGNAL_RECORD_BYTES,
};
use ebpfccp::events::{CreateConnEvent, FreeConnEvent, Signal};

fn sample_signal() -> Signal {
    Signal {
        sock_addr: 0x1122_3344_5566_7788,
        rate_outgoing: 1_000_000,
        rate_incoming: 2_000_000,
        bytes_acked: 1460,
        packets_acked: 1,
        bytes_misordered: 2,
        packets_misordered: 3,
        lost_pkts_sample: 4,
        rtt_sample_us: 350,
        bytes_in_flight: 2920,
        packets_in_flight: 2,
        snd_cwnd: 10,
        bytes_pending: 5,
    }
}

#[test]
fn signal_record_layout_is_pinned() {
    let s = sample_signal();
    let bytes = encode_signal(&s);
    assert_eq!(bytes.len(), SIGNAL_RECORD_BYTES);
    // sock_addr, little-endian, at offset 0.
    assert_eq!(&bytes[0..8], &[0x88, 0x77, 0x66, 0x55, 0x44, 0x33, 0x22, 0x11]);
    // rate_outgoing at 8: 1_000_000 = 0x000F_4240.
    assert_eq!(&bytes[8..16], &[0x40, 0x42, 0x0F, 0x00, 0x00, 0x00, 0x00, 0x00]);
    // bytes_acked at 24: 1460 = 0x05B4.
    assert_eq!(&bytes[24..28], &[0xB4, 0x05, 0x00, 0x00]);
    // rtt_sample_us at 44: 350 = 0x015E.
    assert_eq!(&bytes[44..48], &[0x5E, 0x01, 0x00, 0x00]);
    // bytes_pending at 60.
    assert_eq!(&bytes[60..64], &[0x05, 0x00, 0x00, 0x00]);
}

#[test]
fn signal_round_trips() {
    let s = sample_signal();
    assert_eq!(decode_signal(&encode_signal(&s)), Ok(s));
}

#[test]
fn signal_of_wrong_size_is_rejected() {
    let bytes = vec![0u8; 63];
    assert_eq!(
        decode_signal(&bytes),
        Err(DecodeError::WrongLength { expected: SIGNAL_RECORD_BYTES, actual: 63 })
    );
    let bytes = vec![0u8; 65];
    assert_eq!(
        decode_signal(&bytes),
        Err(DecodeError::WrongLength { expected: SIGNAL_RECORD_BYTES, actual: 65 })
    );
}

#[test]
fn create_record_layout_is_pinned() {
    let e = CreateConnEvent {
        sock_addr: 0x1,
        src_ip: 0x0A00_0001,
        dst_ip: 0x0A00_0002,
        src_port: 1234,
        dst_port: 80,
        init_cwnd: 10,
        mss: 1460,
    };
    let bytes = encode_create(&e);
    assert_eq!(bytes.len(), CREATE_RECORD_BYTES);
    assert_eq!(&bytes[0..8], &[0x01, 0, 0, 0, 0, 0, 0, 0]);
    // src_ip at 8: 10.0.0.1 as 0x0A000001.
    assert_eq!(&bytes[8..12], &[0x01, 0x00, 0x00, 0x0A]);
    // src_port at 16: 1234 = 0x04D2.
    assert_eq!(&bytes[16..18], &[0xD2, 0x04]);
    // dst_port at 18: 80.
    assert_eq!(&bytes[18..20], &[0x50, 0x00]);
    // mss at 24: 1460.
    assert_eq!(&bytes[24..28], &[0xB4, 0x05, 0x00, 0x00]);
    // Trailing padding is zero.
    assert_eq!(&bytes[28..32], &[0, 0, 0, 0]);
    assert_eq!(decode_create(&bytes), Ok(e));
}

#[test]
fn create_padding_bytes_are_ignored_on_decode() {
    let e = CreateConnEvent {
        sock_addr: 0x1,
        src_ip: 1,
        dst_ip: 2,
        src_port: 3,
        dst_port: 4,
        init_cwnd: 5,
        mss: 6,
    };
    let mut bytes = encode_create(&e);
    bytes[28] = 0xFF;
    bytes[31] = 0xAA;
    assert_eq!(decode_create(&bytes), Ok(e));
}

#[test]
fn create_of_wrong_size_is_rejected() {
    let bytes = vec![0u8; 28];
    assert_eq!(
        decode_create(&bytes),
        Err(DecodeError::WrongLength { expected: CREATE_RECORD_BYTES, actual: 28 })
    );
}

#[test]
fn free_record_round_trips() {
    let e = FreeConnEvent { sock_addr: 0xDEAD_BEEF };
    let bytes = encode_free(&e);
    assert_eq!(bytes.len(), FREE_RECORD_BYTES);
    assert_eq!(&bytes[0..8], &[0xEF, 0xBE, 0xAD, 0xDE, 0, 0, 0, 0]);
    assert_eq!(decode_free(&bytes), Ok(e));
}

#[test]
fn free_of_wrong_size_is_rejected() {
    let bytes = vec![0u8; 0];
    assert_eq!(
        decode_free(&bytes),
        Err(DecodeError::WrongLength { expected: FREE_RECORD_BYTES, actual: 0 })
    );
}
