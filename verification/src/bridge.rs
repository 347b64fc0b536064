//! A public connection bridged to its logical stream: two relays, one for
//! each direction, that run side by side and end together.
//!
//! Nothing is buffered or changed on the way. As soon as either direction
//! ends, by end of data or by a failure, the whole bridge is closed.

use crate::machine::{actions, conforms, lemma_action_at, lemma_conforms_prefix, lemma_run_step, run, Machine};
use crate::relay::{action_bytes, event_bytes, Relay, RelayAction, RelayActionView, RelayEvent, RelayEventView};
use vstd::prelude::*;

verus! {

/// One of the two ways that bytes cross a bridge.
#[derive(Clone, Copy, PartialEq, Eq, Debug)]
pub enum Direction {
    /// From the public connection to the logical stream.
    ToTunnel,
    /// From the logical stream to the public connection.
    ToPublic,
}

/// The two relays of a bridge.
#[derive(Clone, Copy, PartialEq, Eq, Debug)]
pub struct Bridge {
    pub to_tunnel: Relay,
    pub to_public: Relay,
}

/// The outcome of an action that the bridge asked for, with the direction
/// that it belongs to.
#[derive(Clone, PartialEq, Eq, Debug)]
pub struct BridgeEvent {
    pub direction: Direction,
    pub outcome: RelayEvent,
}

/// What the driver of a bridge does next.
#[derive(Clone, PartialEq, Eq, Debug)]
pub enum BridgeAction {
    /// Read once from the source of this direction.
    Read(Direction),
    /// Write these bytes to the sink of this direction in one piece.
    Write(Direction, Vec<u8>),
    /// Give up whatever is outstanding and close connection and stream.
    Close,
}

/// A bridge event over mathematical bytes.
pub struct BridgeEventView {
    pub direction: Direction,
    pub outcome: RelayEventView,
}

/// A bridge action over mathematical bytes.
pub enum BridgeActionView {
    Read(Direction),
    Write(Direction, Seq<u8>),
    Close,
}

impl View for BridgeEvent {
    type V = BridgeEventView;

    open spec fn view(&self) -> BridgeEventView {
        BridgeEventView { direction: self.direction, outcome: self.outcome@ }
    }
}

impl View for BridgeAction {
    type V = BridgeActionView;

    open spec fn view(&self) -> BridgeActionView {
        match self {
            BridgeAction::Read(direction) => BridgeActionView::Read(*direction),
            BridgeAction::Write(direction, bytes) => BridgeActionView::Write(*direction, bytes@),
            BridgeAction::Close => BridgeActionView::Close,
        }
    }
}

/// What a relay's action means for the bridge that it belongs to.
pub open spec fn bridge_action(direction: Direction, action: RelayActionView) -> BridgeActionView {
    match action {
        RelayActionView::Read => BridgeActionView::Read(direction),
        RelayActionView::Write(bytes) => BridgeActionView::Write(direction, bytes),
        RelayActionView::Close => BridgeActionView::Close,
    }
}

impl Bridge {
    /// The relay of one direction.
    pub open spec fn relay(self, direction: Direction) -> Relay {
        match direction {
            Direction::ToTunnel => self.to_tunnel,
            Direction::ToPublic => self.to_public,
        }
    }

    /// This bridge with the relay of one direction replaced.
    pub open spec fn with_relay(self, direction: Direction, relay: Relay) -> Bridge {
        match direction {
            Direction::ToTunnel => Bridge { to_tunnel: relay, to_public: self.to_public },
            Direction::ToPublic => Bridge { to_tunnel: self.to_tunnel, to_public: relay },
        }
    }

    /// Whether either direction has ended, and with it the bridge.
    pub open spec fn closed(self) -> bool {
        self.to_tunnel == Relay::Closed || self.to_public == Relay::Closed
    }
}

impl Machine for Bridge {
    type Event = BridgeEventView;

    type Action = BridgeActionView;

    open spec fn awaits(self, event: BridgeEventView) -> bool {
        !self.closed() && self.relay(event.direction).awaits(event.outcome)
    }

    /// An open bridge lets the relay of the event's direction take its step
    /// and leaves the other relay as it is; that relay ending closes the
    /// bridge. A closed bridge answers everything by closing.
    open spec fn next(self, event: BridgeEventView) -> (Bridge, BridgeActionView) {
        if self.closed() {
            (self, BridgeActionView::Close)
        } else {
            let (relay, action) = self.relay(event.direction).next(event.outcome);
            (self.with_relay(event.direction, relay), bridge_action(event.direction, action))
        }
    }
}

impl Bridge {
    /// A bridge at its start, and the two reads it begins with, one in each
    /// direction.
    pub fn start() -> (r: (Bridge, BridgeAction, BridgeAction))
        ensures
            r.0 == (Bridge { to_tunnel: Relay::Reading, to_public: Relay::Reading }),
            r.1@ == BridgeActionView::Read(Direction::ToTunnel),
            r.2@ == BridgeActionView::Read(Direction::ToPublic),
    {
        (
            Bridge { to_tunnel: Relay::Reading, to_public: Relay::Reading },
            BridgeAction::Read(Direction::ToTunnel),
            BridgeAction::Read(Direction::ToPublic),
        )
    }

    /// Whether either direction has ended, and with it the bridge.
    pub fn is_closed(&self) -> (closed: bool)
        ensures
            closed == self.closed(),
    {
        self.to_tunnel.is_closed() || self.to_public.is_closed()
    }

    /// Takes the outcome of an action and decides the next one for the same
    /// direction, or the end of the bridge.
    pub fn step(self, event: BridgeEvent) -> (r: (Bridge, BridgeAction))
        ensures
            r.0 == self.next(event@).0,
            r.1@ == self.next(event@).1,
    {
        if self.is_closed() {
            return (self, BridgeAction::Close);
        }
        let direction = event.direction;
        match direction {
            Direction::ToTunnel => {
                let (relay, action) = self.to_tunnel.step(event.outcome);
                (
                    Bridge { to_tunnel: relay, to_public: self.to_public },
                    lift(Direction::ToTunnel, action),
                )
            },
            Direction::ToPublic => {
                let (relay, action) = self.to_public.step(event.outcome);
                (
                    Bridge { to_tunnel: self.to_tunnel, to_public: relay },
                    lift(Direction::ToPublic, action),
                )
            },
        }
    }
}

/// A relay's action as an action of the bridge.
fn lift(direction: Direction, action: RelayAction) -> (r: BridgeAction)
    ensures
        r@ == bridge_action(direction, action@),
{
    match action {
        RelayAction::Read => BridgeAction::Read(direction),
        RelayAction::Write(bytes) => BridgeAction::Write(direction, bytes),
        RelayAction::Close => BridgeAction::Close,
    }
}

/// All bytes that `events` brought from the source of `direction`, in order.
pub open spec fn bridge_bytes_read(events: Seq<BridgeEventView>, direction: Direction) -> Seq<u8>
    decreases events.len(),
{
    if events.len() == 0 {
        Seq::empty()
    } else if events.last().direction == direction {
        bridge_bytes_read(events.drop_last(), direction) + event_bytes(events.last().outcome)
    } else {
        bridge_bytes_read(events.drop_last(), direction)
    }
}

/// All bytes that `actions` send to the sink of `direction`, in order.
pub open spec fn bridge_bytes_written(
    actions: Seq<BridgeActionView>,
    direction: Direction,
) -> Seq<u8>
    decreases actions.len(),
{
    if actions.len() == 0 {
        Seq::empty()
    } else {
        match actions.last() {
            BridgeActionView::Write(to, bytes) if to == direction => bridge_bytes_written(
                actions.drop_last(),
                direction,
            ) + bytes,
            _ => bridge_bytes_written(actions.drop_last(), direction),
        }
    }
}

/// What one side sends, the other side gets. Over any trace that a driver
/// produces, and for each direction, the bytes written to that direction's
/// sink are the bytes read from its source, in the same order, none twice and
/// none left out, whatever happens in the other direction meanwhile.
pub proof fn law_bridge_fidelity(start: Bridge, events: Seq<BridgeEventView>, direction: Direction)
    requires
        conforms(start, events),
    ensures
        bridge_bytes_written(actions(start, events), direction) == bridge_bytes_read(
            events,
            direction,
        ),
    decreases events.len(),
{
    if events.len() > 0 {
        let front = events.drop_last();
        law_bridge_fidelity(start, front, direction);
        assert(actions(start, events).drop_last() =~= actions(start, front));
    }
}

/// Every write of a bridge carries exactly the chunk that was just read in
/// the same direction: chunks are not split, joined, or turned around.
pub proof fn law_bridge_keeps_chunks(start: Bridge, events: Seq<BridgeEventView>, i: int)
    requires
        0 <= i < events.len(),
        actions(start, events)[i] is Write,
    ensures
        events[i] == (BridgeEventView {
            direction: actions(start, events)[i]->Write_0,
            outcome: RelayEventView::Chunk(actions(start, events)[i]->Write_1),
        }),
{
    lemma_action_at(start, events, i);
}

/// A bridge ends when either direction ends. In a trace that a driver
/// produces, end of data or a failure in one direction is answered by
/// closing the bridge, and the bridge is closed from then on.
pub proof fn law_bridge_ends_with_either_direction(
    start: Bridge,
    events: Seq<BridgeEventView>,
    i: int,
)
    requires
        conforms(start, events),
        0 <= i < events.len(),
        events[i].outcome == RelayEventView::Chunk(Seq::empty()) || events[i].outcome
            is ReadFailed || events[i].outcome is WriteFailed,
    ensures
        actions(start, events)[i] == BridgeActionView::Close,
        run(start, events.take(i + 1)).closed(),
{
    lemma_conforms_prefix(start, events, i);
    lemma_action_at(start, events, i);
    lemma_run_step(start, events, i);
}

/// A closed bridge stays closed: it neither reads nor writes again, in
/// either direction.
pub proof fn law_closed_bridge_is_final(start: Bridge, events: Seq<BridgeEventView>, i: int)
    requires
        start.closed(),
        0 <= i < events.len(),
    ensures
        actions(start, events)[i] == BridgeActionView::Close,
        run(start, events) == start,
{
    lemma_bridge_stays_closed(start, events);
    lemma_bridge_stays_closed(start, events.take(i));
    lemma_action_at(start, events, i);
}

proof fn lemma_bridge_stays_closed(start: Bridge, events: Seq<BridgeEventView>)
    requires
        start.closed(),
    ensures
        run(start, events) == start,
    decreases events.len(),
{
    if events.len() > 0 {
        lemma_bridge_stays_closed(start, events.drop_last());
    }
}

} // verus!
