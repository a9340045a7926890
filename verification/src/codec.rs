//! Byte codecs for the fixed-layout kernel records.
//!
//! Every record crosses the kernel boundary as raw bytes with a fixed,
//! little-endian layout; the layout is versioned by the kernel program's
//! build, so a record of the wrong length signals version skew and is
//! reported as an error rather than skipped. Decoding is total on
//! well-sized inputs and pinned field by field to the byte positions below.
//!
//! Layouts (offsets in bytes):
//! - signal record, 64 bytes: `sock_addr` u64 at 0, `rate_outgoing` u64 at 8,
//!   `rate_incoming` u64 at 16, then u32 fields `bytes_acked` 24,
//!   `packets_acked` 28, `bytes_misordered` 32, `packets_misordered` 36,
//!   `lost_pkts_sample` 40, `rtt_sample_us` 44, `bytes_in_flight` 48,
//!   `packets_in_flight` 52, `snd_cwnd` 56, `bytes_pending` 60.
//! - flow-created record, 32 bytes: `sock_addr` u64 at 0, `src_ip` u32 at 8,
//!   `dst_ip` u32 at 12, `src_port` u16 at 16, `dst_port` u16 at 18,
//!   `init_cwnd` u32 at 20, `mss` u32 at 24, four bytes of trailing padding.
//! - flow-freed record, 8 bytes: `sock_addr` u64 at 0.

use vstd::prelude::*;
use vstd::bytes::{
    spec_u16_from_le_bytes, spec_u16_to_le_bytes, spec_u32_from_le_bytes, spec_u32_to_le_bytes,
    spec_u64_from_le_bytes, spec_u64_to_le_bytes, lemma_auto_spec_u16_to_from_le_bytes,
    lemma_auto_spec_u32_to_from_le_bytes, lemma_auto_spec_u64_to_from_le_bytes,
    u16_from_le_bytes, u16_to_le_bytes, u32_from_le_bytes, u32_to_le_bytes, u64_from_le_bytes,
    u64_to_le_bytes,
};
use vstd::slice::slice_subrange;
use crate::events::{CreateConnEvent, FreeConnEvent, Signal};

verus! {

/// Size of one signal record on the wire.
pub const SIGNAL_RECORD_BYTES: usize = 64;

/// Size of one flow-created record on the wire.
pub const CREATE_RECORD_BYTES: usize = 32;

/// Size of one flow-freed record on the wire.
pub const FREE_RECORD_BYTES: usize = 8;

/// Why a kernel record could not be decoded. A wrong length means the
/// kernel and this library disagree on the record layout; the owning
/// consumer treats that as fatal.
#[derive(Clone, Copy, Debug, PartialEq, Eq, Structural)]
pub enum DecodeError {
    /// The record did not have the expected size.
    WrongLength { expected: usize, actual: usize },
}

/// Little-endian u16 read at `off`.
pub(crate) fn read_u16(bytes: &[u8], off: usize) -> (x: u16)
    requires
        off + 2 <= bytes@.len() <= usize::MAX,
    ensures
        x == spec_u16_from_le_bytes(bytes@.subrange(off as int, off + 2)),
{
    u16_from_le_bytes(slice_subrange(bytes, off, off + 2))
}

/// Little-endian u32 read at `off`.
pub(crate) fn read_u32(bytes: &[u8], off: usize) -> (x: u32)
    requires
        off + 4 <= bytes@.len() <= usize::MAX,
    ensures
        x == spec_u32_from_le_bytes(bytes@.subrange(off as int, off + 4)),
{
    u32_from_le_bytes(slice_subrange(bytes, off, off + 4))
}

/// Little-endian u64 read at `off`.
pub(crate) fn read_u64(bytes: &[u8], off: usize) -> (x: u64)
    requires
        off + 8 <= bytes@.len() <= usize::MAX,
    ensures
        x == spec_u64_from_le_bytes(bytes@.subrange(off as int, off + 8)),
{
    u64_from_le_bytes(slice_subrange(bytes, off, off + 8))
}

/// Appends the two little-endian bytes of `x`.
pub(crate) fn put_u16(out: &mut Vec<u8>, x: u16)
    ensures
        final(out)@ == old(out)@ + spec_u16_to_le_bytes(x),
{
    let mut bs = u16_to_le_bytes(x);
    out.append(&mut bs);
}

/// Appends the four little-endian bytes of `x`.
pub(crate) fn put_u32(out: &mut Vec<u8>, x: u32)
    ensures
        final(out)@ == old(out)@ + spec_u32_to_le_bytes(x),
{
    let mut bs = u32_to_le_bytes(x);
    out.append(&mut bs);
}

/// Appends the eight little-endian bytes of `x`.
pub(crate) fn put_u64(out: &mut Vec<u8>, x: u64)
    ensures
        final(out)@ == old(out)@ + spec_u64_to_le_bytes(x),
{
    let mut bs = u64_to_le_bytes(x);
    out.append(&mut bs);
}

/// The signal held in a well-sized signal record.
pub open spec fn spec_decode_signal(s: Seq<u8>) -> Signal
    recommends
        s.len() == SIGNAL_RECORD_BYTES,
{
    Signal {
        sock_addr: spec_u64_from_le_bytes(s.subrange(0, 8)),
        rate_outgoing: spec_u64_from_le_bytes(s.subrange(8, 16)),
        rate_incoming: spec_u64_from_le_bytes(s.subrange(16, 24)),
        bytes_acked: spec_u32_from_le_bytes(s.subrange(24, 28)),
        packets_acked: spec_u32_from_le_bytes(s.subrange(28, 32)),
        bytes_misordered: spec_u32_from_le_bytes(s.subrange(32, 36)),
        packets_misordered: spec_u32_from_le_bytes(s.subrange(36, 40)),
        lost_pkts_sample: spec_u32_from_le_bytes(s.subrange(40, 44)),
        rtt_sample_us: spec_u32_from_le_bytes(s.subrange(44, 48)),
        bytes_in_flight: spec_u32_from_le_bytes(s.subrange(48, 52)),
        packets_in_flight: spec_u32_from_le_bytes(s.subrange(52, 56)),
        snd_cwnd: spec_u32_from_le_bytes(s.subrange(56, 60)),
        bytes_pending: spec_u32_from_le_bytes(s.subrange(60, 64)),
    }
}

/// The wire bytes of a signal record.
pub open spec fn spec_encode_signal(s: Signal) -> Seq<u8> {
    spec_u64_to_le_bytes(s.sock_addr) + spec_u64_to_le_bytes(s.rate_outgoing)
        + spec_u64_to_le_bytes(s.rate_incoming) + spec_u32_to_le_bytes(s.bytes_acked)
        + spec_u32_to_le_bytes(s.packets_acked) + spec_u32_to_le_bytes(s.bytes_misordered)
        + spec_u32_to_le_bytes(s.packets_misordered) + spec_u32_to_le_bytes(s.lost_pkts_sample)
        + spec_u32_to_le_bytes(s.rtt_sample_us) + spec_u32_to_le_bytes(s.bytes_in_flight)
        + spec_u32_to_le_bytes(s.packets_in_flight) + spec_u32_to_le_bytes(s.snd_cwnd)
        + spec_u32_to_le_bytes(s.bytes_pending)
}

/// Decodes one signal record; errs exactly on records of the wrong size.
pub fn decode_signal(bytes: &[u8]) -> (r: Result<Signal, DecodeError>)
    ensures
        bytes@.len() == SIGNAL_RECORD_BYTES ==> r == Ok::<Signal, DecodeError>(
            spec_decode_signal(bytes@),
        ),
        bytes@.len() != SIGNAL_RECORD_BYTES ==> r == Err::<Signal, DecodeError>(
            DecodeError::WrongLength {
                expected: SIGNAL_RECORD_BYTES,
                actual: bytes@.len() as usize,
            },
        ),
{
    if bytes.len() != SIGNAL_RECORD_BYTES {
        return Err(DecodeError::WrongLength {
            expected: SIGNAL_RECORD_BYTES,
            actual: bytes.len(),
        });
    }
    Ok(Signal {
        sock_addr: read_u64(bytes, 0),
        rate_outgoing: read_u64(bytes, 8),
        rate_incoming: read_u64(bytes, 16),
        bytes_acked: read_u32(bytes, 24),
        packets_acked: read_u32(bytes, 28),
        bytes_misordered: read_u32(bytes, 32),
        packets_misordered: read_u32(bytes, 36),
        lost_pkts_sample: read_u32(bytes, 40),
        rtt_sample_us: read_u32(bytes, 44),
        bytes_in_flight: read_u32(bytes, 48),
        packets_in_flight: read_u32(bytes, 52),
        snd_cwnd: read_u32(bytes, 56),
        bytes_pending: read_u32(bytes, 60),
    })
}

/// Encodes a signal into its wire record; the result decodes back to `s`.
pub fn encode_signal(s: &Signal) -> (b: Vec<u8>)
    ensures
        b@ == spec_encode_signal(*s),
        b@.len() == SIGNAL_RECORD_BYTES,
        spec_decode_signal(b@) == *s,
{
    let mut out: Vec<u8> = Vec::new();
    put_u64(&mut out, s.sock_addr);
    put_u64(&mut out, s.rate_outgoing);
    put_u64(&mut out, s.rate_incoming);
    put_u32(&mut out, s.bytes_acked);
    put_u32(&mut out, s.packets_acked);
    put_u32(&mut out, s.bytes_misordered);
    put_u32(&mut out, s.packets_misordered);
    put_u32(&mut out, s.lost_pkts_sample);
    put_u32(&mut out, s.rtt_sample_us);
    put_u32(&mut out, s.bytes_in_flight);
    put_u32(&mut out, s.packets_in_flight);
    put_u32(&mut out, s.snd_cwnd);
    put_u32(&mut out, s.bytes_pending);
    proof {
        lemma_signal_round_trip(*s);
    }
    out
}

/// Encoding then decoding a signal gives the signal back.
pub proof fn lemma_signal_round_trip(s: Signal)
    ensures
        spec_encode_signal(s).len() == SIGNAL_RECORD_BYTES,
        spec_decode_signal(spec_encode_signal(s)) == s,
{
    lemma_auto_spec_u64_to_from_le_bytes();
    lemma_auto_spec_u32_to_from_le_bytes();
    let e = spec_encode_signal(s);
    assert(e.subrange(0, 8) =~= spec_u64_to_le_bytes(s.sock_addr));
    assert(e.subrange(8, 16) =~= spec_u64_to_le_bytes(s.rate_outgoing));
    assert(e.subrange(16, 24) =~= spec_u64_to_le_bytes(s.rate_incoming));
    assert(e.subrange(24, 28) =~= spec_u32_to_le_bytes(s.bytes_acked));
    assert(e.subrange(28, 32) =~= spec_u32_to_le_bytes(s.packets_acked));
    assert(e.subrange(32, 36) =~= spec_u32_to_le_bytes(s.bytes_misordered));
    assert(e.subrange(36, 40) =~= spec_u32_to_le_bytes(s.packets_misordered));
    assert(e.subrange(40, 44) =~= spec_u32_to_le_bytes(s.lost_pkts_sample));
    assert(e.subrange(44, 48) =~= spec_u32_to_le_bytes(s.rtt_sample_us));
    assert(e.subrange(48, 52) =~= spec_u32_to_le_bytes(s.bytes_in_flight));
    assert(e.subrange(52, 56) =~= spec_u32_to_le_bytes(s.packets_in_flight));
    assert(e.subrange(56, 60) =~= spec_u32_to_le_bytes(s.snd_cwnd));
    assert(e.subrange(60, 64) =~= spec_u32_to_le_bytes(s.bytes_pending));
}

/// The flow-created event held in a well-sized record.
pub open spec fn spec_decode_create(s: Seq<u8>) -> CreateConnEvent
    recommends
        s.len() == CREATE_RECORD_BYTES,
{
    CreateConnEvent {
        sock_addr: spec_u64_from_le_bytes(s.subrange(0, 8)),
        src_ip: spec_u32_from_le_bytes(s.subrange(8, 12)),
        dst_ip: spec_u32_from_le_bytes(s.subrange(12, 16)),
        src_port: spec_u16_from_le_bytes(s.subrange(16, 18)),
        dst_port: spec_u16_from_le_bytes(s.subrange(18, 20)),
        init_cwnd: spec_u32_from_le_bytes(s.subrange(20, 24)),
        mss: spec_u32_from_le_bytes(s.subrange(24, 28)),
    }
}

/// The wire bytes of a flow-created record, padding zeroed.
pub open spec fn spec_encode_create(e: CreateConnEvent) -> Seq<u8> {
    spec_u64_to_le_bytes(e.sock_addr) + spec_u32_to_le_bytes(e.src_ip)
        + spec_u32_to_le_bytes(e.dst_ip) + spec_u16_to_le_bytes(e.src_port)
        + spec_u16_to_le_bytes(e.dst_port) + spec_u32_to_le_bytes(e.init_cwnd)
        + spec_u32_to_le_bytes(e.mss) + spec_u32_to_le_bytes(0)
}

/// Decodes one flow-created record; errs exactly on records of the wrong
/// size. The four trailing padding bytes are ignored.
pub fn decode_create(bytes: &[u8]) -> (r: Result<CreateConnEvent, DecodeError>)
    ensures
        bytes@.len() == CREATE_RECORD_BYTES ==> r == Ok::<CreateConnEvent, DecodeError>(
            spec_decode_create(bytes@),
        ),
        bytes@.len() != CREATE_RECORD_BYTES ==> r == Err::<CreateConnEvent, DecodeError>(
            DecodeError::WrongLength {
                expected: CREATE_RECORD_BYTES,
                actual: bytes@.len() as usize,
            },
        ),
{
    if bytes.len() != CREATE_RECORD_BYTES {
        return Err(DecodeError::WrongLength {
            expected: CREATE_RECORD_BYTES,
            actual: bytes.len(),
        });
    }
    Ok(CreateConnEvent {
        sock_addr: read_u64(bytes, 0),
        src_ip: read_u32(bytes, 8),
        dst_ip: read_u32(bytes, 12),
        src_port: read_u16(bytes, 16),
        dst_port: read_u16(bytes, 18),
        init_cwnd: read_u32(bytes, 20),
        mss: read_u32(bytes, 24),
    })
}

/// Encodes a flow-created event; the result decodes back to `e`.
pub fn encode_create(e: &CreateConnEvent) -> (b: Vec<u8>)
    ensures
        b@ == spec_encode_create(*e),
        b@.len() == CREATE_RECORD_BYTES,
        spec_decode_create(b@) == *e,
{
    let mut out: Vec<u8> = Vec::new();
    put_u64(&mut out, e.sock_addr);
    put_u32(&mut out, e.src_ip);
    put_u32(&mut out, e.dst_ip);
    put_u16(&mut out, e.src_port);
    put_u16(&mut out, e.dst_port);
    put_u32(&mut out, e.init_cwnd);
    put_u32(&mut out, e.mss);
    put_u32(&mut out, 0);
    proof {
        lemma_create_round_trip(*e);
    }
    out
}

/// Encoding then decoding a flow-created event gives the event back.
pub proof fn lemma_create_round_trip(e: CreateConnEvent)
    ensures
        spec_encode_create(e).len() == CREATE_RECORD_BYTES,
        spec_decode_create(spec_encode_create(e)) == e,
{
    lemma_auto_spec_u64_to_from_le_bytes();
    lemma_auto_spec_u32_to_from_le_bytes();
    lemma_auto_spec_u16_to_from_le_bytes();
    let b = spec_encode_create(e);
    assert(b.subrange(0, 8) =~= spec_u64_to_le_bytes(e.sock_addr));
    assert(b.subrange(8, 12) =~= spec_u32_to_le_bytes(e.src_ip));
    assert(b.subrange(12, 16) =~= spec_u32_to_le_bytes(e.dst_ip));
    assert(b.subrange(16, 18) =~= spec_u16_to_le_bytes(e.src_port));
    assert(b.subrange(18, 20) =~= spec_u16_to_le_bytes(e.dst_port));
    assert(b.subrange(20, 24) =~= spec_u32_to_le_bytes(e.init_cwnd));
    assert(b.subrange(24, 28) =~= spec_u32_to_le_bytes(e.mss));
}

/// The flow-freed event held in a well-sized record.
pub open spec fn spec_decode_free(s: Seq<u8>) -> FreeConnEvent
    recommends
        s.len() == FREE_RECORD_BYTES,
{
    FreeConnEvent { sock_addr: spec_u64_from_le_bytes(s.subrange(0, 8)) }
}

/// The wire bytes of a flow-freed record.
pub open spec fn spec_encode_free(e: FreeConnEvent) -> Seq<u8> {
    spec_u64_to_le_bytes(e.sock_addr)
}

/// Decodes one flow-freed record; errs exactly on records of the wrong size.
pub fn decode_free(bytes: &[u8]) -> (r: Result<FreeConnEvent, DecodeError>)
    ensures
        bytes@.len() == FREE_RECORD_BYTES ==> r == Ok::<FreeConnEvent, DecodeError>(
            spec_decode_free(bytes@),
        ),
        bytes@.len() != FREE_RECORD_BYTES ==> r == Err::<FreeConnEvent, DecodeError>(
            DecodeError::WrongLength {
                expected: FREE_RECORD_BYTES,
                actual: bytes@.len() as usize,
            },
        ),
{
    if bytes.len() != FREE_RECORD_BYTES {
        return Err(DecodeError::WrongLength {
            expected: FREE_RECORD_BYTES,
            actual: bytes.len(),
        });
    }
    Ok(FreeConnEvent { sock_addr: read_u64(bytes, 0) })
}

/// Encodes a flow-freed event; the result decodes back to `e`.
pub fn encode_free(e: &FreeConnEvent) -> (b: Vec<u8>)
    ensures
        b@ == spec_encode_free(*e),
        b@.len() == FREE_RECORD_BYTES,
        spec_decode_free(b@) == *e,
{
    let mut out: Vec<u8> = Vec::new();
    put_u64(&mut out, e.sock_addr);
    proof {
        lemma_free_round_trip(*e);
    }
    out
}

/// Encoding then decoding a flow-freed event gives the event back.
pub proof fn lemma_free_round_trip(e: FreeConnEvent)
    ensures
        spec_encode_free(e).len() == FREE_RECORD_BYTES,
        spec_decode_free(spec_encode_free(e)) == e,
{
    lemma_auto_spec_u64_to_from_le_bytes();
    let b = spec_encode_free(e);
    assert(b.subrange(0, 8) =~= spec_u64_to_le_bytes(e.sock_addr));
}

} // verus!
