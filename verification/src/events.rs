//! The three kernel event records and the measurement snapshot.
//!
//! The kernel enforcement program emits three independent streams of
//! fixed-layout records: per-flow measurement signals, flow-created events
//! and flow-freed events. Each record carries the flow identity
//! (`sock_addr`), the opaque 64-bit handle that joins all streams and the
//! kernel connection table.

use vstd::prelude::*;

verus! {

/// One measurement signal for a live flow, as sampled by the kernel.
///
/// Emitted at kernel discretion (not necessarily on every ACK) and consumed
/// exactly once.
#[derive(Clone, Copy, Debug, PartialEq, Eq, Structural)]
pub struct Signal {
    /// Flow identity: stable for the lifetime of one kernel flow.
    pub sock_addr: u64,
    /// Outgoing rate, bytes per second.
    pub rate_outgoing: u64,
    /// Incoming rate, bytes per second.
    pub rate_incoming: u64,
    /// Bytes newly acknowledged.
    pub bytes_acked: u32,
    /// Packets newly acknowledged.
    pub packets_acked: u32,
    /// Bytes received out of order.
    pub bytes_misordered: u32,
    /// Packets received out of order.
    pub packets_misordered: u32,
    /// Sampled count of lost packets.
    pub lost_pkts_sample: u32,
    /// Round-trip time sample, microseconds.
    pub rtt_sample_us: u32,
    /// Bytes currently in flight.
    pub bytes_in_flight: u32,
    /// Packets currently in flight.
    pub packets_in_flight: u32,
    /// Current send congestion window.
    pub snd_cwnd: u32,
    /// Bytes queued but not yet sent.
    pub bytes_pending: u32,
}

/// Marks the start of a flow's visible lifetime: identity, four-tuple and
/// the flow's initial window and maximum segment size.
#[derive(Clone, Copy, Debug, PartialEq, Eq, Structural)]
pub struct CreateConnEvent {
    /// Flow identity of the new flow.
    pub sock_addr: u64,
    /// Source address of the four-tuple.
    pub src_ip: u32,
    /// Destination address of the four-tuple.
    pub dst_ip: u32,
    /// Source port of the four-tuple.
    pub src_port: u16,
    /// Destination port of the four-tuple.
    pub dst_port: u16,
    /// Initial congestion window.
    pub init_cwnd: u32,
    /// Maximum segment size.
    pub mss: u32,
}

/// Marks the end of a flow's visible lifetime. After this the kernel emits
/// no further signals for the identity, though cross-stream reordering can
/// still deliver stale ones.
#[derive(Clone, Copy, Debug, PartialEq, Eq, Structural)]
pub struct FreeConnEvent {
    /// Flow identity of the freed flow.
    pub sock_addr: u64,
}

/// The congestion-relevant counters handed to the external algorithm on
/// every matching signal: the signal's snapshot without the identity.
#[derive(Clone, Copy, Debug, PartialEq, Eq, Structural)]
pub struct Primitives {
    /// Bytes newly acknowledged.
    pub bytes_acked: u32,
    /// Packets newly acknowledged.
    pub packets_acked: u32,
    /// Bytes received out of order.
    pub bytes_misordered: u32,
    /// Packets received out of order.
    pub packets_misordered: u32,
    /// Sampled count of lost packets.
    pub lost_pkts_sample: u32,
    /// Round-trip time sample, microseconds.
    pub rtt_sample_us: u32,
    /// Outgoing rate, bytes per second.
    pub rate_outgoing: u64,
    /// Incoming rate, bytes per second.
    pub rate_incoming: u64,
    /// Bytes currently in flight.
    pub bytes_in_flight: u32,
    /// Packets currently in flight.
    pub packets_in_flight: u32,
    /// Current send congestion window.
    pub snd_cwnd: u32,
    /// Bytes queued but not yet sent.
    pub bytes_pending: u32,
}

impl Primitives {
    /// The snapshot a connection starts from, before any signal arrived.
    pub open spec fn spec_zero() -> Primitives {
        Primitives {
            bytes_acked: 0,
            packets_acked: 0,
            bytes_misordered: 0,
            packets_misordered: 0,
            lost_pkts_sample: 0,
            rtt_sample_us: 0,
            rate_outgoing: 0,
            rate_incoming: 0,
            bytes_in_flight: 0,
            packets_in_flight: 0,
            snd_cwnd: 0,
            bytes_pending: 0,
        }
    }

    /// All-zero snapshot for a connection that has not seen a signal yet.
    pub fn zero() -> (p: Primitives)
        ensures
            p == Primitives::spec_zero(),
    {
        Primitives {
            bytes_acked: 0,
            packets_acked: 0,
            bytes_misordered: 0,
            packets_misordered: 0,
            lost_pkts_sample: 0,
            rtt_sample_us: 0,
            rate_outgoing: 0,
            rate_incoming: 0,
            bytes_in_flight: 0,
            packets_in_flight: 0,
            snd_cwnd: 0,
            bytes_pending: 0,
        }
    }
}

impl Signal {
    /// The measurement snapshot this signal carries.
    pub open spec fn spec_primitives(self) -> Primitives {
        Primitives {
            bytes_acked: self.bytes_acked,
            packets_acked: self.packets_acked,
            bytes_misordered: self.bytes_misordered,
            packets_misordered: self.packets_misordered,
            lost_pkts_sample: self.lost_pkts_sample,
            rtt_sample_us: self.rtt_sample_us,
            rate_outgoing: self.rate_outgoing,
            rate_incoming: self.rate_incoming,
            bytes_in_flight: self.bytes_in_flight,
            packets_in_flight: self.packets_in_flight,
            snd_cwnd: self.snd_cwnd,
            bytes_pending: self.bytes_pending,
        }
    }

    /// Copies the measurement counters out of the signal.
    pub fn primitives(&self) -> (p: Primitives)
        ensures
            p == self.spec_primitives(),
    {
        Primitives {
            bytes_acked: self.bytes_acked,
            packets_acked: self.packets_acked,
            bytes_misordered: self.bytes_misordered,
            packets_misordered: self.packets_misordered,
            lost_pkts_sample: self.lost_pkts_sample,
            rtt_sample_us: self.rtt_sample_us,
            rate_outgoing: self.rate_outgoing,
            rate_incoming: self.rate_incoming,
            bytes_in_flight: self.bytes_in_flight,
            packets_in_flight: self.packets_in_flight,
            snd_cwnd: self.snd_cwnd,
            bytes_pending: self.bytes_pending,
        }
    }
}

} // verus!
