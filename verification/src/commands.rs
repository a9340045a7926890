//! Control commands and the single-consumer command queue.
//!
//! Algorithm decisions become [`ConnectionMessage`]s. Many producers (one
//! per connection callback) enqueue them; exactly one writeback consumer
//! dequeues them in submission order and applies them to the kernel-shared
//! connection table. The queue decouples the producers from the single
//! writer of record, which the kernel table requires because it is not
//! synchronized for concurrent userspace writers.

use vstd::prelude::*;

verus! {

/// One enforcement decision bound for the kernel table: the flow identity
/// and the new value of exactly one field.
#[derive(Clone, Copy, Debug, PartialEq, Eq, Structural)]
pub enum ConnectionMessage {
    /// Set the congestion window (in packets) of the identified flow.
    SetCwnd(u64, u32),
    /// Set the pacing rate (bytes per second) of the identified flow.
    SetRateAbs(u64, u32),
}

impl ConnectionMessage {
    /// The flow identity the command addresses.
    pub open spec fn spec_sock_addr(self) -> u64 {
        match self {
            ConnectionMessage::SetCwnd(sock_addr, _) => sock_addr,
            ConnectionMessage::SetRateAbs(sock_addr, _) => sock_addr,
        }
    }

    /// Returns the flow identity the command addresses.
    pub fn sock_addr(&self) -> (id: u64)
        ensures
            id == self.spec_sock_addr(),
    {
        match self {
            ConnectionMessage::SetCwnd(sock_addr, _) => *sock_addr,
            ConnectionMessage::SetRateAbs(sock_addr, _) => *sock_addr,
        }
    }
}

/// First-in, first-out queue of pending [`ConnectionMessage`]s. Viewed as
/// the sequence of queued commands, oldest first.
pub struct CommandQueue {
    items: Vec<ConnectionMessage>,
}

impl View for CommandQueue {
    type V = Seq<ConnectionMessage>;

    closed spec fn view(&self) -> Seq<ConnectionMessage> {
        self.items@
    }
}

impl CommandQueue {
    /// An empty queue.
    pub fn new() -> (q: CommandQueue)
        ensures
            q@ == Seq::<ConnectionMessage>::empty(),
    {
        CommandQueue { items: Vec::new() }
    }

    /// Number of queued commands.
    pub fn len(&self) -> (n: usize)
        ensures
            n == self@.len(),
    {
        self.items.len()
    }

    /// Whether no command is queued.
    pub fn is_empty(&self) -> (b: bool)
        ensures
            b <==> self@.len() == 0,
    {
        self.items.len() == 0
    }

    /// Enqueues one command behind all queued ones.
    pub fn push(&mut self, msg: ConnectionMessage)
        ensures
            final(self)@ == old(self)@.push(msg),
    {
        self.items.push(msg);
    }

    /// Dequeues the oldest command; `None` exactly when the queue is empty.
    pub fn pop(&mut self) -> (r: Option<ConnectionMessage>)
        ensures
            old(self)@.len() == 0 ==> r is None && final(self)@ == old(self)@,
            old(self)@.len() > 0 ==> r == Some(old(self)@[0]) && final(self)@ == old(
                self,
            )@.subrange(1, old(self)@.len() as int),
    {
        if self.items.len() == 0 {
            None
        } else {
            let msg = self.items.remove(0);
            Some(msg)
        }
    }
}

} // verus!
