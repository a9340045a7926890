//! The flow lifecycle as a state machine, and its laws.
//!
//! Per identity a flow is Absent, becomes Active on a flow-created event,
//! and Absent again on a flow-freed event; signals update an Active flow
//! and fall through an Absent one. The three kernel streams are ordered
//! per stream but not against each other, so the coordinator must behave
//! under every interleaving; the laws below say that it does: the registry
//! holds an identity exactly while its last lifecycle event is a create,
//! and what the registry holds for one identity depends only on that
//! identity's own events.

use vstd::prelude::*;
use crate::connection::Connection;
use crate::events::{CreateConnEvent, FreeConnEvent, Signal};

verus! {

/// One event from any of the three kernel streams, as the coordinator
/// sees them in some interleaved order.
#[derive(Clone, Copy, Debug, PartialEq, Eq, Structural)]
pub enum FlowEvent {
    /// A flow-created event.
    Create(CreateConnEvent),
    /// A measurement signal.
    Signal(Signal),
    /// A flow-freed event.
    Free(FreeConnEvent),
}

impl FlowEvent {
    /// The flow identity the event is about.
    pub open spec fn spec_sock_addr(self) -> u64 {
        match self {
            FlowEvent::Create(e) => e.sock_addr,
            FlowEvent::Signal(s) => s.sock_addr,
            FlowEvent::Free(e) => e.sock_addr,
        }
    }
}

/// What a flow-created event does to the registry: a fresh connection is
/// registered under the identity, replacing any previous one.
pub open spec fn create_step(m: Map<u64, Connection>, e: CreateConnEvent) -> Map<u64, Connection> {
    m.insert(e.sock_addr, Connection::spec_new(e.sock_addr))
}

/// What a signal does to the registry: a live connection's snapshot is
/// reloaded; a signal for an unregistered identity falls through.
pub open spec fn signal_step(m: Map<u64, Connection>, s: Signal) -> Map<u64, Connection> {
    if m.dom().contains(s.sock_addr) {
        m.insert(
            s.sock_addr,
            Connection { socket_addr: s.sock_addr, primitives: s.spec_primitives() },
        )
    } else {
        m
    }
}

/// What a flow-freed event does to the registry: the identity is
/// unregistered; freeing an unregistered identity falls through.
pub open spec fn free_step(m: Map<u64, Connection>, e: FreeConnEvent) -> Map<u64, Connection> {
    m.remove(e.sock_addr)
}

/// One transition of the registry.
pub open spec fn step(m: Map<u64, Connection>, e: FlowEvent) -> Map<u64, Connection> {
    match e {
        FlowEvent::Create(ev) => create_step(m, ev),
        FlowEvent::Signal(s) => signal_step(m, s),
        FlowEvent::Free(ev) => free_step(m, ev),
    }
}

/// The registry after a whole interleaving of events, applied in order to
/// the starting state `m`.
pub open spec fn run(m: Map<u64, Connection>, events: Seq<FlowEvent>) -> Map<u64, Connection>
    decreases events.len(),
{
    if events.len() == 0 {
        m
    } else {
        step(run(m, events.drop_last()), events.last())
    }
}

/// Whether `id`'s last lifecycle event in `events` is a create: signals
/// neither activate nor retire a flow.
pub open spec fn active_after(events: Seq<FlowEvent>, id: u64) -> bool
    decreases events.len(),
{
    if events.len() == 0 {
        false
    } else {
        match events.last() {
            FlowEvent::Create(e) => if e.sock_addr == id {
                true
            } else {
                active_after(events.drop_last(), id)
            },
            FlowEvent::Free(e) => if e.sock_addr == id {
                false
            } else {
                active_after(events.drop_last(), id)
            },
            FlowEvent::Signal(_) => active_after(events.drop_last(), id),
        }
    }
}

/// The registry's entry for `id`, if any.
pub open spec fn entry(m: Map<u64, Connection>, id: u64) -> Option<Connection> {
    if m.dom().contains(id) {
        Some(m[id])
    } else {
        None
    }
}

/// Between a create and the matching free the registry holds exactly one
/// entry for the identity, and none after the free: starting from an empty
/// registry, an identity is registered after an interleaving if and only
/// if its last lifecycle event is a create.
pub proof fn lemma_registry_tracks_lifecycle(events: Seq<FlowEvent>, id: u64)
    ensures
        run(Map::<u64, Connection>::empty(), events).dom().contains(id) <==> active_after(
            events,
            id,
        ),
    decreases events.len(),
{
    if events.len() == 0 {
    } else {
        lemma_registry_tracks_lifecycle(events.drop_last(), id);
    }
}

/// A second create for an identity that was never freed replaces the
/// prior state outright: the registry ends up exactly as if only the
/// second create had happened, so no duplicate registration is visible
/// afterward.
pub proof fn lemma_recreate_replaces(
    m: Map<u64, Connection>,
    e1: CreateConnEvent,
    e2: CreateConnEvent,
)
    requires
        e1.sock_addr == e2.sock_addr,
    ensures
        create_step(create_step(m, e1), e2) == create_step(m, e2),
        create_step(create_step(m, e1), e2).dom() == create_step(m, e1).dom(),
{
    assert(create_step(create_step(m, e1), e2) =~= create_step(m, e2));
    assert(create_step(create_step(m, e1), e2).dom() =~= create_step(m, e1).dom());
}

/// An event for one identity leaves every other identity's entry alone.
pub proof fn lemma_other_identity_untouched(m: Map<u64, Connection>, e: FlowEvent, id: u64)
    requires
        e.spec_sock_addr() != id,
    ensures
        entry(step(m, e), id) == entry(m, id),
{
}

/// Steps for two distinct identities commute: interleaving order between
/// different flows does not matter.
pub proof fn lemma_distinct_identities_commute(
    m: Map<u64, Connection>,
    e1: FlowEvent,
    e2: FlowEvent,
)
    requires
        e1.spec_sock_addr() != e2.spec_sock_addr(),
    ensures
        step(step(m, e1), e2) == step(step(m, e2), e1),
{
    assert(step(step(m, e1), e2) =~= step(step(m, e2), e1));
}

/// The subsequence of `events` that is about `id`, in order.
pub open spec fn events_for(events: Seq<FlowEvent>, id: u64) -> Seq<FlowEvent>
    decreases events.len(),
{
    if events.len() == 0 {
        Seq::<FlowEvent>::empty()
    } else {
        let rest = events_for(events.drop_last(), id);
        if events.last().spec_sock_addr() == id {
            rest.push(events.last())
        } else {
            rest
        }
    }
}

/// What the registry holds for one identity after an interleaving depends
/// only on that identity's own events: concurrent traffic for other flows
/// can neither lose its update nor resurrect it.
pub proof fn lemma_identity_isolated(m: Map<u64, Connection>, events: Seq<FlowEvent>, id: u64)
    ensures
        entry(run(m, events), id) == entry(run(m, events_for(events, id)), id),
    decreases events.len(),
{
    if events.len() == 0 {
    } else {
        let pre = events.drop_last();
        let last = events.last();
        lemma_identity_isolated(m, pre, id);
        if last.spec_sock_addr() == id {
            assert(events_for(events, id) == events_for(pre, id).push(last));
            let fpre = events_for(pre, id);
            assert(fpre.push(last).drop_last() == fpre);
            assert(fpre.push(last).last() == last);
            assert(run(m, events_for(events, id)) == step(run(m, fpre), last));
            match last {
                FlowEvent::Create(_) => {},
                FlowEvent::Signal(_) => {
                    assert(entry(step(run(m, pre), last), id) == entry(
                        step(run(m, fpre), last),
                        id,
                    ));
                },
                FlowEvent::Free(_) => {},
            }
        } else {
            assert(events_for(events, id) == events_for(pre, id));
            lemma_other_identity_untouched(run(m, pre), last, id);
        }
    }
}

} // verus!
