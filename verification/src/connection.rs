//! Per-flow userspace connection state.
//!
//! One [`Connection`] exists per live flow identity, owned by the registry.
//! It carries the identity back-reference used to route the algorithm's
//! decisions with the correct identity, and the last measurement snapshot
//! relayed to the algorithm.

use vstd::prelude::*;
use crate::commands::{CommandQueue, ConnectionMessage};
use crate::events::Primitives;

verus! {

/// Userspace state of one live flow.
#[derive(Clone, Copy, Debug, PartialEq, Eq, Structural)]
pub struct Connection {
    /// The flow identity this state belongs to; commands produced through
    /// this connection carry it.
    pub socket_addr: u64,
    /// The measurement snapshot most recently loaded for this flow; zero
    /// until the first signal arrives.
    pub primitives: Primitives,
}

impl Connection {
    /// The state a connection has right after its flow was created.
    pub open spec fn spec_new(socket_addr: u64) -> Connection {
        Connection { socket_addr, primitives: Primitives::spec_zero() }
    }

    /// Fresh state for a newly created flow.
    pub fn new(socket_addr: u64) -> (c: Connection)
        ensures
            c == Connection::spec_new(socket_addr),
    {
        Connection { socket_addr, primitives: Primitives::zero() }
    }

    /// Replaces the stored measurement snapshot.
    pub fn load_primitives(&mut self, primitives: Primitives)
        ensures
            final(self).socket_addr == old(self).socket_addr,
            final(self).primitives == primitives,
    {
        self.primitives = primitives;
    }

    /// Enqueues a congestion-window decision for this connection's flow.
    pub fn set_cwnd(&self, queue: &mut CommandQueue, cwnd: u32)
        ensures
            final(queue)@ == old(queue)@.push(
                ConnectionMessage::SetCwnd(self.socket_addr, cwnd),
            ),
    {
        queue.push(ConnectionMessage::SetCwnd(self.socket_addr, cwnd));
    }

    /// Enqueues a pacing-rate decision for this connection's flow.
    pub fn set_rate_abs(&self, queue: &mut CommandQueue, rate: u32)
        ensures
            final(queue)@ == old(queue)@.push(
                ConnectionMessage::SetRateAbs(self.socket_addr, rate),
            ),
    {
        queue.push(ConnectionMessage::SetRateAbs(self.socket_addr, rate));
    }
}

} // verus!
