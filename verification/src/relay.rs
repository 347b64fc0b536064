//! One direction of byte copying: read a chunk from a source, write it whole
//! to a sink, until the source ends or either side fails.
//!
//! The client runs one relay for every stream that the server opens (stream to
//! interface); the server's bridge runs two for every public connection.

use crate::machine::{actions, conforms, lemma_action_at, run, Machine};
use vstd::prelude::*;

verus! {

/// What a relay is waiting for.
#[derive(Clone, Copy, PartialEq, Eq, Debug)]
pub enum Relay {
    /// A read from the source is outstanding.
    Reading,
    /// A write to the sink is outstanding.
    Writing,
    /// The relay has ended; source and sink are released.
    Closed,
}

/// The outcome of the action that a relay asked for.
#[derive(Clone, PartialEq, Eq, Debug)]
pub enum RelayEvent {
    /// The read returned these bytes. No bytes means end of data.
    Chunk(Vec<u8>),
    /// The read failed.
    ReadFailed,
    /// The sink took every byte of the chunk.
    Written,
    /// The write failed.
    WriteFailed,
}

/// What the driver of a relay does next.
#[derive(Clone, PartialEq, Eq, Debug)]
pub enum RelayAction {
    /// Read once from the source.
    Read,
    /// Write these bytes to the sink in one piece.
    Write(Vec<u8>),
    /// Release source and sink; the relay is over.
    Close,
}

/// A relay event over mathematical bytes.
pub enum RelayEventView {
    Chunk(Seq<u8>),
    ReadFailed,
    Written,
    WriteFailed,
}

/// A relay action over mathematical bytes.
pub enum RelayActionView {
    Read,
    Write(Seq<u8>),
    Close,
}

impl View for RelayEvent {
    type V = RelayEventView;

    open spec fn view(&self) -> RelayEventView {
        match self {
            RelayEvent::Chunk(bytes) => RelayEventView::Chunk(bytes@),
            RelayEvent::ReadFailed => RelayEventView::ReadFailed,
            RelayEvent::Written => RelayEventView::Written,
            RelayEvent::WriteFailed => RelayEventView::WriteFailed,
        }
    }
}

impl View for RelayAction {
    type V = RelayActionView;

    open spec fn view(&self) -> RelayActionView {
        match self {
            RelayAction::Read => RelayActionView::Read,
            RelayAction::Write(bytes) => RelayActionView::Write(bytes@),
            RelayAction::Close => RelayActionView::Close,
        }
    }
}

impl Machine for Relay {
    type Event = RelayEventView;

    type Action = RelayActionView;

    open spec fn awaits(self, event: RelayEventView) -> bool {
        match self {
            Relay::Reading => event is Chunk || event is ReadFailed,
            Relay::Writing => event is Written || event is WriteFailed,
            Relay::Closed => false,
        }
    }

    /// A non-empty chunk is written whole, a finished write is followed by
    /// the next read, and end of data or any failure ends the relay. An event
    /// that the state does not await ends it too.
    open spec fn next(self, event: RelayEventView) -> (Relay, RelayActionView) {
        match (self, event) {
            (Relay::Reading, RelayEventView::Chunk(bytes)) => if bytes.len() > 0 {
                (Relay::Writing, RelayActionView::Write(bytes))
            } else {
                (Relay::Closed, RelayActionView::Close)
            },
            (Relay::Writing, RelayEventView::Written) => (Relay::Reading, RelayActionView::Read),
            _ => (Relay::Closed, RelayActionView::Close),
        }
    }
}

impl Relay {
    /// A relay at its start, and the read it begins with.
    pub fn start() -> (r: (Relay, RelayAction))
        ensures
            r.0 == Relay::Reading,
            r.1@ == RelayActionView::Read,
    {
        (Relay::Reading, RelayAction::Read)
    }

    /// Takes the outcome of the last action and decides the next one.
    pub fn step(self, event: RelayEvent) -> (r: (Relay, RelayAction))
        ensures
            r.0 == self.next(event@).0,
            r.1@ == self.next(event@).1,
    {
        match self {
            Relay::Reading => match event {
                RelayEvent::Chunk(bytes) => if bytes.len() > 0 {
                    (Relay::Writing, RelayAction::Write(bytes))
                } else {
                    (Relay::Closed, RelayAction::Close)
                },
                _ => (Relay::Closed, RelayAction::Close),
            },
            Relay::Writing => match event {
                RelayEvent::Written => (Relay::Reading, RelayAction::Read),
                _ => (Relay::Closed, RelayAction::Close),
            },
            Relay::Closed => (Relay::Closed, RelayAction::Close),
        }
    }

    /// Whether the relay has ended.
    pub fn is_closed(&self) -> (closed: bool)
        ensures
            closed == (*self == Relay::Closed),
    {
        match self {
            Relay::Closed => true,
            _ => false,
        }
    }
}

/// The bytes that an event brought from the source.
pub open spec fn event_bytes(event: RelayEventView) -> Seq<u8> {
    match event {
        RelayEventView::Chunk(bytes) => bytes,
        _ => Seq::empty(),
    }
}

/// The bytes that an action sends to the sink.
pub open spec fn action_bytes(action: RelayActionView) -> Seq<u8> {
    match action {
        RelayActionView::Write(bytes) => bytes,
        _ => Seq::empty(),
    }
}

/// All bytes that `events` brought from the source, in order.
pub open spec fn bytes_read(events: Seq<RelayEventView>) -> Seq<u8>
    decreases events.len(),
{
    if events.len() == 0 {
        Seq::empty()
    } else {
        bytes_read(events.drop_last()) + event_bytes(events.last())
    }
}

/// All bytes that `actions` send to the sink, in order.
pub open spec fn bytes_written(actions: Seq<RelayActionView>) -> Seq<u8>
    decreases actions.len(),
{
    if actions.len() == 0 {
        Seq::empty()
    } else {
        bytes_written(actions.drop_last()) + action_bytes(actions.last())
    }
}

/// A relay hands on what it reads, unchanged: over any trace that a driver
/// produces, the bytes written to the sink are the bytes read from the
/// source, in the same order, none twice and none left out.
pub proof fn law_relay_fidelity(start: Relay, events: Seq<RelayEventView>)
    requires
        conforms(start, events),
    ensures
        bytes_written(actions(start, events)) == bytes_read(events),
    decreases events.len(),
{
    if events.len() > 0 {
        let front = events.drop_last();
        law_relay_fidelity(start, front);
        assert(actions(start, events).drop_last() =~= actions(start, front));
    }
}

/// Every write carries exactly the chunk of the read before it: a chunk is
/// neither split over several writes nor joined with another.
pub proof fn law_relay_keeps_chunks(start: Relay, events: Seq<RelayEventView>, i: int)
    requires
        0 <= i < events.len(),
        actions(start, events)[i] is Write,
    ensures
        events[i] == RelayEventView::Chunk(actions(start, events)[i]->Write_0),
{
    lemma_action_at(start, events, i);
}

/// A closed relay stays closed and asks for nothing more.
pub proof fn law_relay_closed_is_final(events: Seq<RelayEventView>, i: int)
    requires
        0 <= i < events.len(),
    ensures
        run(Relay::Closed, events) == Relay::Closed,
        actions(Relay::Closed, events)[i] == RelayActionView::Close,
{
    lemma_relay_stays_closed(events);
    lemma_relay_stays_closed(events.take(i));
    lemma_action_at(Relay::Closed, events, i);
}

proof fn lemma_relay_stays_closed(events: Seq<RelayEventView>)
    ensures
        run(Relay::Closed, events) == Relay::Closed,
    decreases events.len(),
{
    if events.len() > 0 {
        lemma_relay_stays_closed(events.drop_last());
    }
}

} // verus!
