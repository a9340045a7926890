//! The kernel-shared connection table and the writeback applied to it.
//!
//! The kernel enforcement program reads its enforcement parameters from a
//! table keyed by flow identity. Userspace owns exactly one writer of that
//! table: the writeback consumer, which dequeues one [`ConnectionMessage`]
//! at a time and performs a field-scoped read-modify-write — it reads the
//! current record, changes only the targeted field, and writes the record
//! back. A command for an identity the kernel has already torn down finds
//! no record and is a no-op, not an error.
//!
//! [`KernelTable`] is the value-level model of the table; the byte-level
//! entry points ([`decode_connection_record`], [`apply_to_record_bytes`])
//! carry the same read-modify-write over the raw 8-byte records the kernel
//! map holds: `cwnd` u32 at offset 0, `pacing_rate` u32 at offset 4,
//! little-endian.

use vstd::prelude::*;
use std::collections::HashMap;
use vstd::bytes::{
    spec_u32_from_le_bytes, spec_u32_to_le_bytes, spec_u64_to_le_bytes,
    lemma_auto_spec_u32_to_from_le_bytes, u64_to_le_bytes,
};
use crate::codec::{put_u32, read_u32, DecodeError};
use crate::commands::ConnectionMessage;

verus! {

broadcast use vstd::std_specs::hash::group_hash_axioms;

/// Size of one kernel connection record.
pub const CONNECTION_RECORD_BYTES: usize = 8;

/// The canonical byte encoding of a flow identity, as the kernel table is
/// keyed: the eight little-endian bytes of the 64-bit handle.
pub fn identity_key(id: u64) -> (key: Vec<u8>)
    ensures
        key@ == spec_u64_to_le_bytes(id),
        key@.len() == 8,
{
    proof {
        vstd::bytes::lemma_auto_spec_u64_to_from_le_bytes();
    }
    u64_to_le_bytes(id)
}

/// The enforcement parameters the kernel keeps per flow, mirrored
/// binary-compatibly into the kernel-shared table.
#[derive(Clone, Copy, Debug, PartialEq, Eq, Structural)]
pub struct KernelConnectionRecord {
    /// Congestion window, in packets.
    pub cwnd: u32,
    /// Pacing rate, bytes per second.
    pub pacing_rate: u32,
}

/// The record held in a well-sized table entry.
pub open spec fn spec_decode_record(s: Seq<u8>) -> KernelConnectionRecord
    recommends
        s.len() == CONNECTION_RECORD_BYTES,
{
    KernelConnectionRecord {
        cwnd: spec_u32_from_le_bytes(s.subrange(0, 4)),
        pacing_rate: spec_u32_from_le_bytes(s.subrange(4, 8)),
    }
}

/// The table-entry bytes of a record.
pub open spec fn spec_encode_record(r: KernelConnectionRecord) -> Seq<u8> {
    spec_u32_to_le_bytes(r.cwnd) + spec_u32_to_le_bytes(r.pacing_rate)
}

/// Decodes one table entry; errs exactly on entries of the wrong size.
pub fn decode_connection_record(bytes: &[u8]) -> (r: Result<KernelConnectionRecord, DecodeError>)
    ensures
        bytes@.len() == CONNECTION_RECORD_BYTES ==> r == Ok::<KernelConnectionRecord, DecodeError>(
            spec_decode_record(bytes@),
        ),
        bytes@.len() != CONNECTION_RECORD_BYTES ==> r == Err::<KernelConnectionRecord, DecodeError>(
            DecodeError::WrongLength {
                expected: CONNECTION_RECORD_BYTES,
                actual: bytes@.len() as usize,
            },
        ),
{
    if bytes.len() != CONNECTION_RECORD_BYTES {
        return Err(DecodeError::WrongLength {
            expected: CONNECTION_RECORD_BYTES,
            actual: bytes.len(),
        });
    }
    Ok(KernelConnectionRecord { cwnd: read_u32(bytes, 0), pacing_rate: read_u32(bytes, 4) })
}

/// Encodes a record into its table entry; the result decodes back to `r`.
pub fn encode_connection_record(r: &KernelConnectionRecord) -> (b: Vec<u8>)
    ensures
        b@ == spec_encode_record(*r),
        b@.len() == CONNECTION_RECORD_BYTES,
        spec_decode_record(b@) == *r,
{
    let mut out: Vec<u8> = Vec::new();
    put_u32(&mut out, r.cwnd);
    put_u32(&mut out, r.pacing_rate);
    proof {
        lemma_record_round_trip(*r);
    }
    out
}

/// Encoding then decoding a record gives the record back.
pub proof fn lemma_record_round_trip(r: KernelConnectionRecord)
    ensures
        spec_encode_record(r).len() == CONNECTION_RECORD_BYTES,
        spec_decode_record(spec_encode_record(r)) == r,
{
    lemma_auto_spec_u32_to_from_le_bytes();
    let b = spec_encode_record(r);
    assert(b.subrange(0, 4) =~= spec_u32_to_le_bytes(r.cwnd));
    assert(b.subrange(4, 8) =~= spec_u32_to_le_bytes(r.pacing_rate));
}

/// `rec` with exactly the field targeted by `msg` replaced.
pub open spec fn spec_updated_record(
    rec: KernelConnectionRecord,
    msg: ConnectionMessage,
) -> KernelConnectionRecord {
    match msg {
        ConnectionMessage::SetCwnd(_, cwnd) => KernelConnectionRecord {
            cwnd,
            pacing_rate: rec.pacing_rate,
        },
        ConnectionMessage::SetRateAbs(_, rate) => KernelConnectionRecord {
            cwnd: rec.cwnd,
            pacing_rate: rate,
        },
    }
}

/// Applies `msg` to a copy of `rec`, leaving the untargeted field as it
/// was.
pub fn updated_record(
    rec: &KernelConnectionRecord,
    msg: &ConnectionMessage,
) -> (r: KernelConnectionRecord)
    ensures
        r == spec_updated_record(*rec, *msg),
{
    match msg {
        ConnectionMessage::SetCwnd(_, cwnd) => KernelConnectionRecord {
            cwnd: *cwnd,
            pacing_rate: rec.pacing_rate,
        },
        ConnectionMessage::SetRateAbs(_, rate) => KernelConnectionRecord {
            cwnd: rec.cwnd,
            pacing_rate: *rate,
        },
    }
}

/// The read-modify-write over one raw table entry: decodes `bytes`,
/// applies `msg` to the one targeted field, re-encodes. Errs exactly on
/// entries of the wrong size.
pub fn apply_to_record_bytes(bytes: &[u8], msg: &ConnectionMessage) -> (r: Result<
    Vec<u8>,
    DecodeError,
>)
    ensures
        bytes@.len() == CONNECTION_RECORD_BYTES ==> match r {
            Ok(out) => out@ == spec_encode_record(
                spec_updated_record(spec_decode_record(bytes@), *msg),
            ),
            Err(_) => false,
        },
        bytes@.len() != CONNECTION_RECORD_BYTES ==> r == Err::<Vec<u8>, DecodeError>(
            DecodeError::WrongLength {
                expected: CONNECTION_RECORD_BYTES,
                actual: bytes@.len() as usize,
            },
        ),
{
    match decode_connection_record(bytes) {
        Ok(rec) => Ok(encode_connection_record(&updated_record(&rec, msg))),
        Err(e) => Err(e),
    }
}

/// What one command does to the table: a field-scoped update where the
/// identity is present, nothing where it is not.
pub open spec fn spec_apply(
    m: Map<u64, KernelConnectionRecord>,
    msg: ConnectionMessage,
) -> Map<u64, KernelConnectionRecord> {
    let id = msg.spec_sock_addr();
    if m.dom().contains(id) {
        m.insert(id, spec_updated_record(m[id], msg))
    } else {
        m
    }
}

/// Value-level model of the kernel-shared connection table. Viewed as a
/// `Map<u64, KernelConnectionRecord>`.
pub struct KernelTable {
    table: HashMap<u64, KernelConnectionRecord>,
}

impl View for KernelTable {
    type V = Map<u64, KernelConnectionRecord>;

    closed spec fn view(&self) -> Map<u64, KernelConnectionRecord> {
        self.table@
    }
}

impl KernelTable {
    /// An empty table.
    pub fn new() -> (t: KernelTable)
        ensures
            t@ == Map::<u64, KernelConnectionRecord>::empty(),
    {
        KernelTable { table: HashMap::new() }
    }

    /// Installs the record for a flow, as the kernel does when it starts
    /// tracking one.
    pub fn insert(&mut self, id: u64, rec: KernelConnectionRecord)
        ensures
            final(self)@ == old(self)@.insert(id, rec),
    {
        self.table.insert(id, rec);
    }

    /// Drops the record of a flow, as the kernel does on teardown.
    pub fn remove(&mut self, id: u64)
        ensures
            final(self)@ == old(self)@.remove(id),
    {
        self.table.remove(&id);
    }

    /// Reads the record of a flow; `None` exactly when the kernel does not
    /// track `id`.
    pub fn lookup(&self, id: u64) -> (r: Option<KernelConnectionRecord>)
        ensures
            match r {
                Some(rec) => self@.dom().contains(id) && rec == self@[id],
                None => !self@.dom().contains(id),
            },
    {
        match self.table.get(&id) {
            Some(rec) => Some(*rec),
            None => None,
        }
    }

    /// The writeback step: read the addressed record, change only the
    /// targeted field, write it back. A command for an untracked identity
    /// leaves the table exactly as it was.
    pub fn apply(&mut self, msg: &ConnectionMessage)
        ensures
            final(self)@ == spec_apply(old(self)@, *msg),
            !old(self)@.dom().contains(msg.spec_sock_addr()) ==> final(self)@ == old(self)@,
    {
        let id = msg.sock_addr();
        let current = match self.table.get(&id) {
            Some(rec) => Some(*rec),
            None => None,
        };
        match current {
            Some(rec) => {
                self.table.insert(id, updated_record(&rec, msg));
            }
            None => {},
        }
    }
}

/// A command for an identity absent from the kernel table changes nothing.
pub proof fn lemma_retired_command_is_noop(
    m: Map<u64, KernelConnectionRecord>,
    msg: ConnectionMessage,
)
    requires
        !m.dom().contains(msg.spec_sock_addr()),
    ensures
        spec_apply(m, msg) == m,
{
}

/// Writes are field-scoped: a command touches no record but the one it
/// addresses, and of that record only the targeted field.
pub proof fn lemma_apply_field_scoped(m: Map<u64, KernelConnectionRecord>, msg: ConnectionMessage)
    ensures
        spec_apply(m, msg).dom() == m.dom(),
        forall|k: u64| #![auto]
            m.dom().contains(k) && k != msg.spec_sock_addr() ==> spec_apply(m, msg)[k] == m[k],
        m.dom().contains(msg.spec_sock_addr()) ==> match msg {
            ConnectionMessage::SetCwnd(id, cwnd) => spec_apply(m, msg)[id]
                == KernelConnectionRecord { cwnd, pacing_rate: m[id].pacing_rate },
            ConnectionMessage::SetRateAbs(id, rate) => spec_apply(m, msg)[id]
                == KernelConnectionRecord { cwnd: m[id].cwnd, pacing_rate: rate },
        },
{
    assert(spec_apply(m, msg).dom() =~= m.dom());
}

/// Setting the pacing rate and then the congestion window of one flow
/// leaves both fields at their last-set values, whichever order the two
/// commands were applied in.
pub proof fn lemma_fields_keep_last_set_values(
    m: Map<u64, KernelConnectionRecord>,
    id: u64,
    rate: u32,
    cwnd: u32,
)
    requires
        m.dom().contains(id),
    ensures
        ({
            let after = spec_apply(
                spec_apply(m, ConnectionMessage::SetRateAbs(id, rate)),
                ConnectionMessage::SetCwnd(id, cwnd),
            );
            after.dom().contains(id) && after[id] == KernelConnectionRecord {
                cwnd,
                pacing_rate: rate,
            }
        }),
        ({
            let after = spec_apply(
                spec_apply(m, ConnectionMessage::SetCwnd(id, cwnd)),
                ConnectionMessage::SetRateAbs(id, rate),
            );
            after.dom().contains(id) && after[id] == KernelConnectionRecord {
                cwnd,
                pacing_rate: rate,
            }
        }),
{
}

} // verus!
