//! The client's way in: every stream that the server opens is given a relay
//! of its own, which copies the stream into the virtual interface.
//!
//! The loop here only accepts and hands out; the copying is a
//! [`Relay`](crate::relay::Relay) per stream. It ends when the session can
//! accept no more.

use crate::machine::{actions, conforms, lemma_action_at, lemma_conforms_prefix, lemma_run_step, run, Machine};
use vstd::prelude::*;

verus! {

/// What the accept loop is waiting for.
#[derive(Clone, Copy, PartialEq, Eq, Debug)]
pub enum InboundAcceptor {
    /// The next stream of the session is awaited.
    Accepting,
    /// The loop has ended.
    Stopped,
}

/// The outcome of waiting for the session's next stream.
#[derive(Clone, Copy, PartialEq, Eq, Debug)]
pub enum InboundEvent {
    /// The peer opened a stream.
    Accepted,
    /// The session failed.
    AcceptFailed,
}

/// What the driver of the accept loop does next.
#[derive(Clone, Copy, PartialEq, Eq, Debug)]
pub enum InboundAction {
    /// Wait for the session's next stream.
    Accept,
    /// Start a task that relays the accepted stream into the interface, then
    /// wait for the session's next stream.
    SpawnRelay,
    /// Leave the loop.
    Stop,
}

impl Machine for InboundAcceptor {
    type Event = InboundEvent;

    type Action = InboundAction;

    open spec fn awaits(self, event: InboundEvent) -> bool {
        self == InboundAcceptor::Accepting
    }

    /// Every accepted stream gets a relay; a failed accept ends the loop.
    open spec fn next(self, event: InboundEvent) -> (InboundAcceptor, InboundAction) {
        match (self, event) {
            (InboundAcceptor::Accepting, InboundEvent::Accepted) => (
                InboundAcceptor::Accepting,
                InboundAction::SpawnRelay,
            ),
            _ => (InboundAcceptor::Stopped, InboundAction::Stop),
        }
    }
}

impl InboundAcceptor {
    /// An accept loop at its start, and the accept it begins with.
    pub fn start() -> (r: (InboundAcceptor, InboundAction))
        ensures
            r == (InboundAcceptor::Accepting, InboundAction::Accept),
    {
        (InboundAcceptor::Accepting, InboundAction::Accept)
    }

    /// Takes the outcome of the last accept and decides what follows.
    pub fn step(self, event: InboundEvent) -> (r: (InboundAcceptor, InboundAction))
        ensures
            r == self.next(event),
    {
        match self {
            InboundAcceptor::Accepting => match event {
                InboundEvent::Accepted => (InboundAcceptor::Accepting, InboundAction::SpawnRelay),
                InboundEvent::AcceptFailed => (InboundAcceptor::Stopped, InboundAction::Stop),
            },
            InboundAcceptor::Stopped => (InboundAcceptor::Stopped, InboundAction::Stop),
        }
    }
}

/// No stream is left without a relay: in a trace that a driver produces,
/// every accepted stream is answered by starting its relay, and the loop
/// goes on accepting.
pub proof fn law_every_stream_gets_a_relay(events: Seq<InboundEvent>, i: int)
    requires
        conforms(InboundAcceptor::Accepting, events),
        0 <= i < events.len(),
        events[i] == InboundEvent::Accepted,
    ensures
        actions(InboundAcceptor::Accepting, events)[i] == InboundAction::SpawnRelay,
        run(InboundAcceptor::Accepting, events.take(i + 1)) == InboundAcceptor::Accepting,
{
    let start = InboundAcceptor::Accepting;
    lemma_conforms_prefix(start, events, i);
    lemma_action_at(start, events, i);
    lemma_run_step(start, events, i);
}

/// A session that fails to accept ends the loop for good: from that event on
/// every answer is to stop.
pub proof fn law_accept_failure_is_final(
    start: InboundAcceptor,
    events: Seq<InboundEvent>,
    i: int,
    j: int,
)
    requires
        0 <= i <= j < events.len(),
        events[i] == InboundEvent::AcceptFailed,
    ensures
        actions(start, events)[j] == InboundAction::Stop,
        run(start, events.take(j + 1)) == InboundAcceptor::Stopped,
    decreases j - i,
{
    lemma_action_at(start, events, j);
    lemma_run_step(start, events, j);
    if i < j {
        law_accept_failure_is_final(start, events, i, j - 1);
    }
}

} // verus!
