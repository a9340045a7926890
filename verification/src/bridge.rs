//! Outbound side of the algorithm bridge.
//!
//! The external congestion-control algorithm lives in its own process,
//! reached over a local datagram transport whose framing the algorithm's
//! protocol owns. This module models the outbound path as a queue of
//! [`BridgeMessage`]s, in emission order: the lifecycle coordinator pushes
//! a message for every flow creation and every matching measurement
//! signal, and the transport thread drains the queue and puts each message
//! on the wire.

use vstd::prelude::*;
use crate::events::{CreateConnEvent, Primitives, Signal};

verus! {

/// One outbound notification for the external algorithm.
#[derive(Clone, Copy, Debug, PartialEq, Eq, Structural)]
pub enum BridgeMessage {
    /// A flow came alive: its identity, four-tuple, initial window and
    /// maximum segment size.
    Create {
        /// Flow identity of the new flow.
        sock_addr: u64,
        /// Source address of the four-tuple.
        src_ip: u32,
        /// Destination address of the four-tuple.
        dst_ip: u32,
        /// Source port of the four-tuple.
        src_port: u16,
        /// Destination port of the four-tuple.
        dst_port: u16,
        /// Initial congestion window.
        init_cwnd: u32,
        /// Maximum segment size.
        mss: u32,
    },
    /// A fresh measurement snapshot for a live flow.
    Measurement {
        /// Flow identity the snapshot belongs to.
        sock_addr: u64,
        /// The sampled counters.
        primitives: Primitives,
    },
}

/// The bridge message announcing `e` to the algorithm.
pub open spec fn spec_create_message(e: CreateConnEvent) -> BridgeMessage {
    BridgeMessage::Create {
        sock_addr: e.sock_addr,
        src_ip: e.src_ip,
        dst_ip: e.dst_ip,
        src_port: e.src_port,
        dst_port: e.dst_port,
        init_cwnd: e.init_cwnd,
        mss: e.mss,
    }
}

/// The bridge message relaying the snapshot of `s` to the algorithm.
pub open spec fn spec_measurement_message(s: Signal) -> BridgeMessage {
    BridgeMessage::Measurement { sock_addr: s.sock_addr, primitives: s.spec_primitives() }
}

/// Handle on the algorithm bridge's outbound path. Viewed as the sequence
/// of messages waiting to be put on the wire, oldest first.
pub struct Datapath {
    outbound: Vec<BridgeMessage>,
}

impl View for Datapath {
    type V = Seq<BridgeMessage>;

    closed spec fn view(&self) -> Seq<BridgeMessage> {
        self.outbound@
    }
}

impl Datapath {
    /// A bridge with nothing pending.
    pub fn new() -> (d: Datapath)
        ensures
            d@ == Seq::<BridgeMessage>::empty(),
    {
        Datapath { outbound: Vec::new() }
    }

    /// Number of messages waiting to be sent.
    pub fn pending(&self) -> (n: usize)
        ensures
            n == self@.len(),
    {
        self.outbound.len()
    }

    /// Queues the creation notification for a new flow.
    pub fn notify_create(&mut self, event: &CreateConnEvent)
        ensures
            final(self)@ == old(self)@.push(spec_create_message(*event)),
    {
        self.outbound.push(BridgeMessage::Create {
            sock_addr: event.sock_addr,
            src_ip: event.src_ip,
            dst_ip: event.dst_ip,
            src_port: event.src_port,
            dst_port: event.dst_port,
            init_cwnd: event.init_cwnd,
            mss: event.mss,
        });
    }

    /// Queues a measurement snapshot for a live flow.
    pub fn send_measurement(&mut self, sock_addr: u64, primitives: Primitives)
        ensures
            final(self)@ == old(self)@.push(
                BridgeMessage::Measurement { sock_addr, primitives },
            ),
    {
        self.outbound.push(BridgeMessage::Measurement { sock_addr, primitives });
    }

    /// Takes the oldest pending message; `None` exactly when none is
    /// pending.
    pub fn next_outbound(&mut self) -> (r: Option<BridgeMessage>)
        ensures
            old(self)@.len() == 0 ==> r is None && final(self)@ == old(self)@,
            old(self)@.len() > 0 ==> r == Some(old(self)@[0]) && final(self)@ == old(
                self,
            )@.subrange(1, old(self)@.len() as int),
    {
        if self.outbound.len() == 0 {
            None
        } else {
            let msg = self.outbound.remove(0);
            Some(msg)
        }
    }
}

} // verus!
