//! Writeback semantics against the kernel-shared connection table:
//! field-scoped read-modify-write, and no-op on retired identities.

use ebpfccp::codec::DecodeError;
use ebpfccp::commands::ConnectionMessage;
use ebpfccp::kernel::{
    apply_to_record_bytes, decode_connection_record, encode_connection_record, identity_key,
    updated_record, KernelConnectionRecord, KernelTable, CONNECTION_RECORD_BYTES,
};

#[test]
fn command_for_retired_identity_is_a_noop() {
    let mut t = KernelTable::new();
    t.insert(0x7, KernelConnectionRecord { cwnd: 5, pacing_rate: 99 });
    // 0x8 was never tracked (or already torn down): the table keeps its
    // prior contents, including the record of 0x7.
    t.apply(&ConnectionMessage::SetCwnd(0x8, 20));
    t.apply(&ConnectionMessage::SetRateAbs(0x8, 333));
    assert_eq!(t.lookup(0x8), None);
    assert_eq!(t.lookup(0x7), Some(KernelConnectionRecord { cwnd: 5, pacing_rate: 99 }));
}

#[test]
fn writes_are_field_scoped_round_trip() {
    let mut t = KernelTable::new();
    t.insert(0x7, KernelConnectionRecord { cwnd: 0, pacing_rate: 0 });
    t.apply(&ConnectionMessage::SetRateAbs(0x7, 125_000));
    t.apply(&ConnectionMessage::SetCwnd(0x7, 42));
    // Both fields read back at their last-set values.
    assert_eq!(t.lookup(0x7), Some(KernelConnectionRecord { cwnd: 42, pacing_rate: 125_000 }));
    // And the other order as well.
    t.apply(&ConnectionMessage::SetCwnd(0x7, 43));
    t.apply(&ConnectionMessage::SetRateAbs(0x7, 126_000));
    assert_eq!(t.lookup(0x7), Some(KernelConnectionRecord { cwnd: 43, pacing_rate: 126_000 }));
}

#[test]
fn setting_cwnd_does_not_alter_pacing_rate() {
    let mut t = KernelTable::new();
    t.insert(0x1, KernelConnectionRecord { cwnd: 10, pacing_rate: 777 });
    t.apply(&ConnectionMessage::SetCwnd(0x1, 20));
    assert_eq!(t.lookup(0x1), Some(KernelConnectionRecord { cwnd: 20, pacing_rate: 777 }));
    t.apply(&ConnectionMessage::SetRateAbs(0x1, 888));
    assert_eq!(t.lookup(0x1), Some(KernelConnectionRecord { cwnd: 20, pacing_rate: 888 }));
}

#[test]
fn updates_touch_no_other_record() {
    let mut t = KernelTable::new();
    t.insert(0x1, KernelConnectionRecord { cwnd: 1, pacing_rate: 11 });
    t.insert(0x2, KernelConnectionRecord { cwnd: 2, pacing_rate: 22 });
    t.apply(&ConnectionMessage::SetCwnd(0x1, 100));
    assert_eq!(t.lookup(0x2), Some(KernelConnectionRecord { cwnd: 2, pacing_rate: 22 }));
}

#[test]
fn identity_key_is_the_little_endian_handle() {
    assert_eq!(
        identity_key(0x1122_3344_5566_7788),
        vec![0x88, 0x77, 0x66, 0x55, 0x44, 0x33, 0x22, 0x11]
    );
}

#[test]
fn record_codec_uses_little_endian_layout() {
    let rec = KernelConnectionRecord { cwnd: 0x0102_0304, pacing_rate: 5 };
    let bytes = encode_connection_record(&rec);
    assert_eq!(bytes, vec![0x04, 0x03, 0x02, 0x01, 0x05, 0x00, 0x00, 0x00]);
    assert_eq!(decode_connection_record(&bytes), Ok(rec));
}

#[test]
fn record_codec_rejects_wrong_sizes() {
    let bytes = vec![0u8; 9];
    assert_eq!(
        decode_connection_record(&bytes),
        Err(DecodeError::WrongLength { expected: CONNECTION_RECORD_BYTES, actual: 9 })
    );
}

#[test]
fn updated_record_changes_only_the_targeted_field() {
    let rec = KernelConnectionRecord { cwnd: 7, pacing_rate: 70 };
    assert_eq!(
        updated_record(&rec, &ConnectionMessage::SetCwnd(0x1, 9)),
        KernelConnectionRecord { cwnd: 9, pacing_rate: 70 }
    );
    assert_eq!(
        updated_record(&rec, &ConnectionMessage::SetRateAbs(0x1, 90)),
        KernelConnectionRecord { cwnd: 7, pacing_rate: 90 }
    );
}

#[test]
fn byte_level_read_modify_write_matches_the_model() {
    let rec = KernelConnectionRecord { cwnd: 7, pacing_rate: 70 };
    let bytes = encode_connection_record(&rec);
    let updated = apply_to_record_bytes(&bytes, &ConnectionMessage::SetRateAbs(0x1, 90)).unwrap();
    assert_eq!(
        decode_connection_record(&updated),
        Ok(KernelConnectionRecord { cwnd: 7, pacing_rate: 90 })
    );
    let short = vec![0u8; 4];
    assert_eq!(
        apply_to_record_bytes(&short, &ConnectionMessage::SetCwnd(0x1, 1)),
        Err(DecodeError::WrongLength { expected: CONNECTION_RECORD_BYTES, actual: 4 })
    );
}
