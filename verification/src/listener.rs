//! The server's public side: every connection that the public listener
//! accepts is paired with a fresh logical stream, or dropped where the
//! session grants none.
//!
//! The session's control handle is shared with other tasks. The driver holds
//! it exclusively while it performs [`PublicAction::OpenStream`].

use crate::machine::{actions, conforms, lemma_action_at, lemma_conforms_prefix, lemma_run_step, run, Machine};
use vstd::prelude::*;

verus! {

/// What the public accept loop is waiting for.
#[derive(Clone, Copy, PartialEq, Eq, Debug)]
pub enum PublicAcceptor {
    /// The next public connection is awaited.
    Accepting,
    /// A stream for the accepted connection has been asked for.
    Pairing,
    /// The loop has ended.
    Stopped,
}

/// The outcome of the action that the public accept loop asked for.
#[derive(Clone, Copy, PartialEq, Eq, Debug)]
pub enum PublicEvent {
    /// The listener accepted a connection.
    Connected,
    /// The listener failed.
    AcceptFailed,
    /// The session granted a new stream.
    StreamOpened,
    /// The session granted no stream.
    StreamRefused,
}

/// What the driver of the public accept loop does next.
#[derive(Clone, Copy, PartialEq, Eq, Debug)]
pub enum PublicAction {
    /// Wait for the next public connection.
    Accept,
    /// Ask the session for a new stream, holding its control handle alone
    /// for as long as the request takes.
    OpenStream,
    /// Start a task that bridges the connection and its stream, then wait for
    /// the next public connection.
    SpawnBridge,
    /// Close the connection, then wait for the next public connection.
    DropConnection,
    /// Leave the loop.
    Stop,
}

impl Machine for PublicAcceptor {
    type Event = PublicEvent;

    type Action = PublicAction;

    open spec fn awaits(self, event: PublicEvent) -> bool {
        match self {
            PublicAcceptor::Accepting => event is Connected || event is AcceptFailed,
            PublicAcceptor::Pairing => event is StreamOpened || event is StreamRefused,
            PublicAcceptor::Stopped => false,
        }
    }

    /// An accepted connection asks for a stream at once; granted, the two
    /// are bridged; refused, the connection is dropped; either way the next
    /// connection is awaited. A failed accept ends the loop, and so does an
    /// event that the state does not await.
    open spec fn next(self, event: PublicEvent) -> (PublicAcceptor, PublicAction) {
        match (self, event) {
            (PublicAcceptor::Accepting, PublicEvent::Connected) => (
                PublicAcceptor::Pairing,
                PublicAction::OpenStream,
            ),
            (PublicAcceptor::Pairing, PublicEvent::StreamOpened) => (
                PublicAcceptor::Accepting,
                PublicAction::SpawnBridge,
            ),
            (PublicAcceptor::Pairing, PublicEvent::StreamRefused) => (
                PublicAcceptor::Accepting,
                PublicAction::DropConnection,
            ),
            _ => (PublicAcceptor::Stopped, PublicAction::Stop),
        }
    }
}

impl PublicAcceptor {
    /// A public accept loop at its start, and the accept it begins with.
    pub fn start() -> (r: (PublicAcceptor, PublicAction))
        ensures
            r == (PublicAcceptor::Accepting, PublicAction::Accept),
    {
        (PublicAcceptor::Accepting, PublicAction::Accept)
    }

    /// Takes the outcome of the last action and decides the next one.
    pub fn step(self, event: PublicEvent) -> (r: (PublicAcceptor, PublicAction))
        ensures
            r == self.next(event),
    {
        match self {
            PublicAcceptor::Accepting => match event {
                PublicEvent::Connected => (PublicAcceptor::Pairing, PublicAction::OpenStream),
                _ => (PublicAcceptor::Stopped, PublicAction::Stop),
            },
            PublicAcceptor::Pairing => match event {
                PublicEvent::StreamOpened => (PublicAcceptor::Accepting, PublicAction::SpawnBridge),
                PublicEvent::StreamRefused => (
                    PublicAcceptor::Accepting,
                    PublicAction::DropConnection,
                ),
                _ => (PublicAcceptor::Stopped, PublicAction::Stop),
            },
            PublicAcceptor::Stopped => (PublicAcceptor::Stopped, PublicAction::Stop),
        }
    }
}

/// No connection is accepted without an attempt to pair it, and a bridge is
/// started for granted streams only. In a trace that a driver produces, every
/// accepted connection is answered by asking for a stream, and a bridge is
/// started exactly in answer to the grant that follows an accepted
/// connection.
pub proof fn law_one_stream_per_connection(events: Seq<PublicEvent>, i: int)
    requires
        conforms(PublicAcceptor::Accepting, events),
        0 <= i < events.len(),
    ensures
        events[i] is Connected ==> actions(PublicAcceptor::Accepting, events)[i]
            == PublicAction::OpenStream,
        actions(PublicAcceptor::Accepting, events)[i] == PublicAction::SpawnBridge <==> events[i]
            is StreamOpened,
        events[i] is StreamOpened ==> i >= 1 && events[i - 1] is Connected,
{
    let start = PublicAcceptor::Accepting;
    lemma_conforms_prefix(start, events, i);
    lemma_action_at(start, events, i);
    if i >= 1 {
        lemma_conforms_prefix(start, events, i - 1);
        lemma_run_step(start, events, i - 1);
    }
}

/// A refused stream costs one connection and no more. In a trace that a
/// driver produces, the loop answers a refusal by dropping the connection,
/// is accepting again, and pairs the next connection like any other.
pub proof fn law_refusal_drops_one_connection(events: Seq<PublicEvent>, i: int)
    requires
        conforms(PublicAcceptor::Accepting, events),
        0 <= i < events.len(),
        events[i] is StreamRefused,
    ensures
        actions(PublicAcceptor::Accepting, events)[i] == PublicAction::DropConnection,
        run(PublicAcceptor::Accepting, events.take(i + 1)) == PublicAcceptor::Accepting,
        i + 1 < events.len() && events[i + 1] is Connected ==> actions(
            PublicAcceptor::Accepting,
            events,
        )[i + 1] == PublicAction::OpenStream,
{
    let start = PublicAcceptor::Accepting;
    lemma_conforms_prefix(start, events, i);
    lemma_action_at(start, events, i);
    lemma_run_step(start, events, i);
    if i + 1 < events.len() {
        lemma_action_at(start, events, i + 1);
    }
}

/// A listener that fails to accept ends the loop for good: from that event on
/// every answer is to stop.
pub proof fn law_listener_failure_is_final(
    start: PublicAcceptor,
    events: Seq<PublicEvent>,
    i: int,
    j: int,
)
    requires
        0 <= i <= j < events.len(),
        events[i] is AcceptFailed,
    ensures
        actions(start, events)[j] == PublicAction::Stop,
        run(start, events.take(j + 1)) == PublicAcceptor::Stopped,
    decreases j - i,
{
    lemma_action_at(start, events, j);
    lemma_run_step(start, events, j);
    if i < j {
        law_listener_failure_is_final(start, events, i, j - 1);
    }
}

} // verus!
