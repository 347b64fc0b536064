//! The server's main loop: streams that the client opens are read to their
//! end, one after the other, and what they carry is thrown away.
//!
//! Nothing is routed back to a public connection. The loop only keeps the
//! session from filling up with unread data.

use crate::machine::{actions, conforms, lemma_action_at, lemma_actions_len, lemma_conforms_prefix, lemma_run_step, run, Machine};
use vstd::prelude::*;

verus! {

/// What the drain loop is waiting for.
#[derive(Clone, Copy, PartialEq, Eq, Debug)]
pub enum Drain {
    /// The next stream of the session is awaited.
    Accepting,
    /// A read of the accepted stream is outstanding.
    Draining,
    /// The loop has ended.
    Stopped,
}

/// The outcome of the action that the drain loop asked for.
#[derive(Clone, Copy, PartialEq, Eq, Debug)]
pub enum DrainEvent {
    /// The client opened a stream.
    Accepted,
    /// The session failed.
    AcceptFailed,
    /// The read returned this many bytes. None means end of data.
    Read(usize),
    /// The read of the stream failed.
    ReadFailed,
}

/// What the driver of the drain loop does next.
#[derive(Clone, Copy, PartialEq, Eq, Debug)]
pub enum DrainAction {
    /// Let go of the stream at hand, if any, and wait for the session's next.
    Accept,
    /// Read once from the accepted stream and forget what was read.
    Read,
    /// Leave the loop; the server ends without an error of its own.
    Stop,
    /// Leave the loop and end the server with the read's error.
    Abort,
}

impl Machine for Drain {
    type Event = DrainEvent;

    type Action = DrainAction;

    open spec fn awaits(self, event: DrainEvent) -> bool {
        match self {
            Drain::Accepting => event is Accepted || event is AcceptFailed,
            Drain::Draining => event is Read || event is ReadFailed,
            Drain::Stopped => false,
        }
    }

    /// An accepted stream is read until a read brings nothing; then the next
    /// stream is awaited. A failed accept stops the loop, a failed read
    /// aborts it, and an event that the state does not await stops it too.
    open spec fn next(self, event: DrainEvent) -> (Drain, DrainAction) {
        match (self, event) {
            (Drain::Accepting, DrainEvent::Accepted) => (Drain::Draining, DrainAction::Read),
            (Drain::Draining, DrainEvent::Read(n)) => if n > 0 {
                (Drain::Draining, DrainAction::Read)
            } else {
                (Drain::Accepting, DrainAction::Accept)
            },
            (Drain::Draining, DrainEvent::ReadFailed) => (Drain::Stopped, DrainAction::Abort),
            _ => (Drain::Stopped, DrainAction::Stop),
        }
    }
}

impl Drain {
    /// A drain loop at its start, and the accept it begins with.
    pub fn start() -> (r: (Drain, DrainAction))
        ensures
            r == (Drain::Accepting, DrainAction::Accept),
    {
        (Drain::Accepting, DrainAction::Accept)
    }

    /// Takes the outcome of the last action and decides the next one.
    pub fn step(self, event: DrainEvent) -> (r: (Drain, DrainAction))
        ensures
            r == self.next(event),
    {
        match self {
            Drain::Accepting => match event {
                DrainEvent::Accepted => (Drain::Draining, DrainAction::Read),
                _ => (Drain::Stopped, DrainAction::Stop),
            },
            Drain::Draining => match event {
                DrainEvent::Read(n) => if n > 0 {
                    (Drain::Draining, DrainAction::Read)
                } else {
                    (Drain::Accepting, DrainAction::Accept)
                },
                DrainEvent::ReadFailed => (Drain::Stopped, DrainAction::Abort),
                _ => (Drain::Stopped, DrainAction::Stop),
            },
            Drain::Stopped => (Drain::Stopped, DrainAction::Stop),
        }
    }
}

/// What a stream reports to the drain loop from its acceptance to its end:
/// one read for each of `chunks`, then the read that brings nothing.
pub open spec fn stream_events(chunks: Seq<usize>) -> Seq<DrainEvent> {
    seq![DrainEvent::Accepted] + Seq::new(chunks.len(), |k: int| DrainEvent::Read(chunks[k]))
        + seq![DrainEvent::Read(0)]
}

/// The drain loop never leaves a stream half read. In a trace that a driver
/// produces, an accepted stream is answered by a read, every read that
/// brought bytes by another read, and only the read that brought nothing by
/// waiting for the next stream.
pub proof fn law_drain_keeps_reading(events: Seq<DrainEvent>, i: int)
    requires
        conforms(Drain::Accepting, events),
        0 <= i < events.len(),
    ensures
        events[i] is Accepted ==> actions(Drain::Accepting, events)[i] == DrainAction::Read,
        events[i] is Read && events[i]->Read_0 > 0 ==> actions(Drain::Accepting, events)[i]
            == DrainAction::Read,
        events[i] is Read && events[i]->Read_0 == 0 ==> actions(Drain::Accepting, events)[i]
            == DrainAction::Accept,
{
    let start = Drain::Accepting;
    lemma_conforms_prefix(start, events, i);
    lemma_action_at(start, events, i);
}

/// Every stream is consumed to its end, however much it carries: fed the
/// events of one whole stream, a loop that was accepting answers each of them
/// but the last with a read, answers the last by accepting, and is accepting
/// again.
pub proof fn law_drain_consumes_stream(chunks: Seq<usize>)
    requires
        forall|k: int| 0 <= k < chunks.len() ==> chunks[k] > 0,
    ensures
        conforms(Drain::Accepting, stream_events(chunks)),
        run(Drain::Accepting, stream_events(chunks)) == Drain::Accepting,
        actions(Drain::Accepting, stream_events(chunks)).len() == chunks.len() + 2,
        forall|i: int|
            0 <= i <= chunks.len() ==> #[trigger] actions(Drain::Accepting, stream_events(chunks))[i]
                == DrainAction::Read,
        actions(Drain::Accepting, stream_events(chunks))[chunks.len() as int + 1]
            == DrainAction::Accept,
{
    let start = Drain::Accepting;
    let events = stream_events(chunks);
    let body = events.drop_last();
    let end = chunks.len() as int + 1;
    lemma_stream_body(chunks, end - 1);
    assert(body.take(end) =~= body);
    lemma_actions_len(start, events);
    lemma_action_at(start, events, end);
    assert(events.take(end) =~= body);
    assert forall|i: int| 0 <= i <= chunks.len() implies #[trigger] actions(start, events)[i]
        == DrainAction::Read by {
        lemma_action_at(start, events, i);
        lemma_stream_body(chunks, i);
        assert(events.take(i) =~= body.take(i));
    }
}

/// After its acceptance and any number of its reads that brought bytes, a
/// stream is still being drained.
proof fn lemma_stream_body(chunks: Seq<usize>, n: int)
    requires
        forall|k: int| 0 <= k < chunks.len() ==> chunks[k] > 0,
        0 <= n <= chunks.len(),
    ensures
        conforms(Drain::Accepting, stream_events(chunks).drop_last().take(n + 1)),
        run(Drain::Accepting, stream_events(chunks).drop_last().take(n + 1)) == Drain::Draining,
        n >= 1 ==> run(Drain::Accepting, stream_events(chunks).drop_last().take(n))
            == Drain::Draining,
        n == 0 ==> run(Drain::Accepting, stream_events(chunks).drop_last().take(n))
            == Drain::Accepting,
    decreases n,
{
    let start = Drain::Accepting;
    let body = stream_events(chunks).drop_last();
    let prefix = body.take(n + 1);
    assert(prefix.drop_last() =~= body.take(n));
    if n == 0 {
        assert(body.take(0).len() == 0);
        assert(conforms(start, body.take(0)));
        assert(prefix.last() == DrainEvent::Accepted);
    } else {
        lemma_stream_body(chunks, n - 1);
        assert(prefix.last() == DrainEvent::Read(chunks[n - 1]));
    }
}

/// A session that fails to accept ends the drain loop for good: from that
/// event on every answer is to stop.
pub proof fn law_drain_accept_failure_is_final(
    start: Drain,
    events: Seq<DrainEvent>,
    i: int,
    j: int,
)
    requires
        0 <= i <= j < events.len(),
        events[i] is AcceptFailed,
    ensures
        actions(start, events)[j] == DrainAction::Stop,
        run(start, events.take(j + 1)) == Drain::Stopped,
    decreases j - i,
{
    lemma_action_at(start, events, j);
    lemma_run_step(start, events, j);
    if i < j {
        law_drain_accept_failure_is_final(start, events, i, j - 1);
    }
}

} // verus!
