//! The flow lifecycle coordinator.
//!
//! The [`Manager`] owns the connection registry and the outbound side of
//! the algorithm bridge, and implements the policy of the three
//! event-driven transitions a flow goes through: create registers fresh
//! state and announces the flow to the algorithm, a signal reloads a live
//! flow's snapshot and relays it, free unregisters the flow. Inbound
//! algorithm decisions are routed through the registry into the command
//! queue; a decision for an identity no longer registered is dropped.
//!
//! Each method is one bounded, in-memory transition; the surrounding
//! process runs them from its consumer threads, sharing the manager
//! behind the registry's single reader/writer lock.

use vstd::prelude::*;
use crate::bridge::{spec_create_message, spec_measurement_message, Datapath};
use crate::codec::{
    decode_create, decode_free, decode_signal, DecodeError, CREATE_RECORD_BYTES,
    FREE_RECORD_BYTES, SIGNAL_RECORD_BYTES,
};
use crate::commands::{CommandQueue, ConnectionMessage};
use crate::connection::Connection;
use crate::events::{CreateConnEvent, FreeConnEvent, Signal};
use crate::lifecycle::{create_step, free_step, signal_step, step, FlowEvent};
use crate::registry::Registry;

verus! {

/// Coordinates the connection registry and the algorithm bridge across
/// the three event streams.
pub struct Manager {
    /// Outbound side of the algorithm bridge.
    pub datapath: Datapath,
    /// The authoritative identity-to-connection map.
    pub connections: Registry,
}

impl Manager {
    /// The coordinator's invariant: the registry is internally consistent,
    /// and every registered connection carries its own key as the identity
    /// it routes commands with.
    pub open spec fn wf(&self) -> bool {
        &&& self.connections.wf()
        &&& forall|k: u64| #![auto]
            self.connections@.dom().contains(k) ==> self.connections@[k].socket_addr == k
    }

    /// A coordinator with no registered flows and nothing pending towards
    /// the algorithm.
    pub fn new() -> (m: Manager)
        ensures
            m.wf(),
            m.connections@ == Map::<u64, Connection>::empty(),
            m.datapath@ == Seq::<crate::bridge::BridgeMessage>::empty(),
    {
        Manager { datapath: Datapath::new(), connections: Registry::new() }
    }

    /// A flow came alive: registers fresh state under its identity,
    /// replacing any state a reused identity left behind, and announces
    /// the flow to the algorithm.
    pub fn handle_create(&mut self, event: &CreateConnEvent)
        requires
            old(self).wf(),
        ensures
            final(self).wf(),
            final(self).connections@ == create_step(old(self).connections@, *event),
            final(self).datapath@ == old(self).datapath@.push(spec_create_message(*event)),
    {
        let conn = Connection::new(event.sock_addr);
        self.datapath.notify_create(event);
        self.connections.insert(event.sock_addr, conn);
        proof {
            assert forall|k: u64| #![auto]
                self.connections@.dom().contains(k) implies self.connections@[k].socket_addr
                == k by {
                if k != event.sock_addr {
                    assert(old(self).connections@.dom().contains(k));
                }
            }
        }
    }

    /// A measurement signal arrived: if its identity is registered, the
    /// connection's snapshot is reloaded and relayed to the algorithm;
    /// otherwise nothing at all happens — a signal racing ahead of a
    /// create or behind a free falls through.
    pub fn handle_signal(&mut self, signal: &Signal)
        requires
            old(self).wf(),
        ensures
            final(self).wf(),
            final(self).connections@ == signal_step(old(self).connections@, *signal),
            final(self).datapath@ == if old(self).connections@.dom().contains(signal.sock_addr) {
                old(self).datapath@.push(spec_measurement_message(*signal))
            } else {
                old(self).datapath@
            },
            !old(self).connections@.dom().contains(signal.sock_addr) ==> *final(self) == *old(self),
    {
        let found = self.connections.get(signal.sock_addr);
        match found {
            Some(c) => {
                let mut conn = *c;
                conn.load_primitives(signal.primitives());
                self.datapath.send_measurement(signal.sock_addr, signal.primitives());
                self.connections.insert(signal.sock_addr, conn);
                proof {
                    assert forall|k: u64| #![auto]
                        self.connections@.dom().contains(k)
                            implies self.connections@[k].socket_addr == k by {
                        if k != signal.sock_addr {
                            assert(old(self).connections@.dom().contains(k));
                        }
                    }
                }
            }
            None => {},
        }
    }

    /// A flow was freed: unregisters its identity and hands back the
    /// now-detached state, if there was one. Processing already under way
    /// against that state may finish; identity-addressed lookups simply
    /// miss from here on.
    pub fn handle_free(&mut self, event: &FreeConnEvent) -> (r: Option<Connection>)
        requires
            old(self).wf(),
        ensures
            final(self).wf(),
            final(self).connections@ == free_step(old(self).connections@, *event),
            final(self).datapath == old(self).datapath,
            r == if old(self).connections@.dom().contains(event.sock_addr) {
                Some(old(self).connections@[event.sock_addr])
            } else {
                None::<Connection>
            },
    {
        self.connections.remove(event.sock_addr)
    }

    /// One transition of the lifecycle state machine, whichever stream the
    /// event came from.
    pub fn handle_event(&mut self, event: &FlowEvent)
        requires
            old(self).wf(),
        ensures
            final(self).wf(),
            final(self).connections@ == step(old(self).connections@, *event),
    {
        match event {
            FlowEvent::Create(e) => self.handle_create(e),
            FlowEvent::Signal(s) => self.handle_signal(s),
            FlowEvent::Free(e) => {
                let _ = self.handle_free(e);
            }
        }
    }

    /// Routes an inbound congestion-window decision: enqueues a command
    /// carrying the flow's identity if the flow is registered, and drops
    /// the decision if it is not.
    pub fn handle_set_cwnd(&self, queue: &mut CommandQueue, sock_addr: u64, cwnd: u32)
        requires
            self.wf(),
        ensures
            self.connections@.dom().contains(sock_addr) ==> final(queue)@ == old(queue)@.push(
                ConnectionMessage::SetCwnd(sock_addr, cwnd),
            ),
            !self.connections@.dom().contains(sock_addr) ==> final(queue)@ == old(queue)@,
    {
        match self.connections.get(sock_addr) {
            Some(conn) => conn.set_cwnd(queue, cwnd),
            None => {},
        }
    }

    /// Routes an inbound pacing-rate decision: enqueues a command carrying
    /// the flow's identity if the flow is registered, and drops the
    /// decision if it is not.
    pub fn handle_set_rate_abs(&self, queue: &mut CommandQueue, sock_addr: u64, rate: u32)
        requires
            self.wf(),
        ensures
            self.connections@.dom().contains(sock_addr) ==> final(queue)@ == old(queue)@.push(
                ConnectionMessage::SetRateAbs(sock_addr, rate),
            ),
            !self.connections@.dom().contains(sock_addr) ==> final(queue)@ == old(queue)@,
    {
        match self.connections.get(sock_addr) {
            Some(conn) => conn.set_rate_abs(queue, rate),
            None => {},
        }
    }

    /// Lists the live connections in registration order: each registered
    /// identity exactly once, paired with the bytes-acked counter of its
    /// last snapshot.
    pub fn list_connections(&self) -> (r: Vec<(u64, u32)>)
        requires
            self.wf(),
        ensures
            r@.len() == self.connections@.dom().len(),
            forall|j: int| #![auto]
                0 <= j < r@.len() ==> self.connections@.dom().contains(r@[j].0) && r@[j].1
                    == self.connections@[r@[j].0].primitives.bytes_acked,
            r@.map_values(|p: (u64, u32)| p.0) == self.connections.spec_ids(),
            r@.map_values(|p: (u64, u32)| p.0).no_duplicates(),
    {
        let ids = self.connections.all_identities();
        let n = ids.len();
        let mut out: Vec<(u64, u32)> = Vec::new();
        let mut i: usize = 0;
        while i < n
            invariant
                self.wf(),
                n == ids@.len(),
                ids@ == self.connections.spec_ids(),
                forall|k: u64| #![auto] ids@.contains(k) <==> self.connections@.dom().contains(k),
                i <= n,
                out@.len() == i,
                forall|j: int| #![auto]
                    0 <= j < i ==> out@[j].0 == ids@[j] && out@[j].1 == self.connections@[
                        ids@[j]
                    ].primitives.bytes_acked,
            decreases n - i,
        {
            let id = ids[i];
            proof {
                assert(ids@.contains(id));
            }
            match self.connections.get(id) {
                Some(conn) => {
                    out.push((id, conn.primitives.bytes_acked));
                }
                None => {
                    proof {
                        assert(false);
                    }
                }
            }
            i = i + 1;
        }
        proof {
            assert(out@.map_values(|p: (u64, u32)| p.0) =~= ids@);
            assert forall|j: int| #![auto]
                0 <= j < out@.len() implies self.connections@.dom().contains(out@[j].0)
                && out@[j].1 == self.connections@[out@[j].0].primitives.bytes_acked by {
                assert(out@[j].0 == ids@[j]);
                assert(ids@.contains(ids@[j]));
            }
        }
        out
    }

    /// Consumer handler for the signal stream: decodes one raw record and
    /// dispatches it. Errs exactly on records of the wrong size, changing
    /// nothing — the consumer treats that as fatal version skew.
    pub fn handle_signal_record(&mut self, bytes: &[u8]) -> (r: Result<(), DecodeError>)
        requires
            old(self).wf(),
        ensures
            final(self).wf(),
            bytes@.len() == SIGNAL_RECORD_BYTES ==> {
                let signal = crate::codec::spec_decode_signal(bytes@);
                &&& r is Ok
                &&& final(self).connections@ == signal_step(old(self).connections@, signal)
                &&& final(self).datapath@ == if old(self).connections@.dom().contains(
                    signal.sock_addr,
                ) {
                    old(self).datapath@.push(spec_measurement_message(signal))
                } else {
                    old(self).datapath@
                }
            },
            bytes@.len() != SIGNAL_RECORD_BYTES ==> r == Err::<(), DecodeError>(
                DecodeError::WrongLength {
                    expected: SIGNAL_RECORD_BYTES,
                    actual: bytes@.len() as usize,
                },
            ) && *final(self) == *old(self),
    {
        match decode_signal(bytes) {
            Ok(signal) => {
                self.handle_signal(&signal);
                Ok(())
            }
            Err(e) => Err(e),
        }
    }

    /// Consumer handler for the flow-created stream: decodes one raw
    /// record and dispatches it. Errs exactly on records of the wrong
    /// size, changing nothing.
    pub fn handle_create_record(&mut self, bytes: &[u8]) -> (r: Result<(), DecodeError>)
        requires
            old(self).wf(),
        ensures
            final(self).wf(),
            bytes@.len() == CREATE_RECORD_BYTES ==> {
                let event = crate::codec::spec_decode_create(bytes@);
                &&& r is Ok
                &&& final(self).connections@ == create_step(old(self).connections@, event)
                &&& final(self).datapath@ == old(self).datapath@.push(spec_create_message(event))
            },
            bytes@.len() != CREATE_RECORD_BYTES ==> r == Err::<(), DecodeError>(
                DecodeError::WrongLength {
                    expected: CREATE_RECORD_BYTES,
                    actual: bytes@.len() as usize,
                },
            ) && *final(self) == *old(self),
    {
        match decode_create(bytes) {
            Ok(event) => {
                self.handle_create(&event);
                Ok(())
            }
            Err(e) => Err(e),
        }
    }

    /// Consumer handler for the flow-freed stream: decodes one raw record
    /// and dispatches it. Errs exactly on records of the wrong size,
    /// changing nothing.
    pub fn handle_free_record(&mut self, bytes: &[u8]) -> (r: Result<(), DecodeError>)
        requires
            old(self).wf(),
        ensures
            final(self).wf(),
            bytes@.len() == FREE_RECORD_BYTES ==> {
                let event = crate::codec::spec_decode_free(bytes@);
                &&& r is Ok
                &&& final(self).connections@ == free_step(old(self).connections@, event)
                &&& final(self).datapath == old(self).datapath
            },
            bytes@.len() != FREE_RECORD_BYTES ==> r == Err::<(), DecodeError>(
                DecodeError::WrongLength {
                    expected: FREE_RECORD_BYTES,
                    actual: bytes@.len() as usize,
                },
            ) && *final(self) == *old(self),
    {
        match decode_free(bytes) {
            Ok(event) => {
                let _ = self.handle_free(&event);
                Ok(())
            }
            Err(e) => Err(e),
        }
    }
}

} // verus!
