//! The client's way out: every packet read from the virtual interface
//! travels on a logical stream of its own.
//!
//! A packet that gets no stream is dropped and the next one is read. A failed
//! read of the interface, or a failed write to a stream, ends the forwarder.

use crate::machine::{actions, conforms, lemma_action_at, lemma_conforms_prefix, lemma_run_step, run, Machine};
use vstd::prelude::*;

verus! {

/// What the forwarder is waiting for.
#[derive(Clone, PartialEq, Eq, Debug)]
pub enum PacketForwarder {
    /// A read of the interface is outstanding.
    Reading,
    /// A stream for this packet has been asked for.
    Opening(Vec<u8>),
    /// The packet is being written to its stream.
    Writing,
    /// The forwarder has ended.
    Stopped,
}

/// The outcome of the action that the forwarder asked for.
#[derive(Clone, PartialEq, Eq, Debug)]
pub enum ForwardEvent {
    /// The interface returned these bytes. No bytes is a read that brought
    /// nothing, not an end.
    Packet(Vec<u8>),
    /// The read of the interface failed.
    ReadFailed,
    /// The session granted a new stream.
    StreamOpened,
    /// The session granted no stream.
    StreamRefused,
    /// The stream took every byte of the packet.
    Written,
    /// The write to the stream failed.
    WriteFailed,
}

/// What the driver of the forwarder does next.
#[derive(Clone, PartialEq, Eq, Debug)]
pub enum ForwardAction {
    /// Read one packet from the interface.
    ReadPacket,
    /// Ask the session for a new stream.
    OpenStream,
    /// Write these bytes to the stream just opened, then let go of the stream.
    WritePacket(Vec<u8>),
    /// Leave the loop.
    Stop,
}

/// A forwarder state over mathematical bytes.
pub enum PacketForwarderView {
    Reading,
    Opening(Seq<u8>),
    Writing,
    Stopped,
}

/// A forwarder event over mathematical bytes.
pub enum ForwardEventView {
    Packet(Seq<u8>),
    ReadFailed,
    StreamOpened,
    StreamRefused,
    Written,
    WriteFailed,
}

/// A forwarder action over mathematical bytes.
pub enum ForwardActionView {
    ReadPacket,
    OpenStream,
    WritePacket(Seq<u8>),
    Stop,
}

impl View for PacketForwarder {
    type V = PacketForwarderView;

    open spec fn view(&self) -> PacketForwarderView {
        match self {
            PacketForwarder::Reading => PacketForwarderView::Reading,
            PacketForwarder::Opening(packet) => PacketForwarderView::Opening(packet@),
            PacketForwarder::Writing => PacketForwarderView::Writing,
            PacketForwarder::Stopped => PacketForwarderView::Stopped,
        }
    }
}

impl View for ForwardEvent {
    type V = ForwardEventView;

    open spec fn view(&self) -> ForwardEventView {
        match self {
            ForwardEvent::Packet(bytes) => ForwardEventView::Packet(bytes@),
            ForwardEvent::ReadFailed => ForwardEventView::ReadFailed,
            ForwardEvent::StreamOpened => ForwardEventView::StreamOpened,
            ForwardEvent::StreamRefused => ForwardEventView::StreamRefused,
            ForwardEvent::Written => ForwardEventView::Written,
            ForwardEvent::WriteFailed => ForwardEventView::WriteFailed,
        }
    }
}

impl View for ForwardAction {
    type V = ForwardActionView;

    open spec fn view(&self) -> ForwardActionView {
        match self {
            ForwardAction::ReadPacket => ForwardActionView::ReadPacket,
            ForwardAction::OpenStream => ForwardActionView::OpenStream,
            ForwardAction::WritePacket(bytes) => ForwardActionView::WritePacket(bytes@),
            ForwardAction::Stop => ForwardActionView::Stop,
        }
    }
}

impl Machine for PacketForwarderView {
    type Event = ForwardEventView;

    type Action = ForwardActionView;

    open spec fn awaits(self, event: ForwardEventView) -> bool {
        match self {
            PacketForwarderView::Reading => event is Packet || event is ReadFailed,
            PacketForwarderView::Opening(_) => event is StreamOpened || event is StreamRefused,
            PacketForwarderView::Writing => event is Written || event is WriteFailed,
            PacketForwarderView::Stopped => false,
        }
    }

    /// An empty read is retried at once. A packet asks for a stream; granted,
    /// the stream carries that packet and nothing else; refused, the packet is
    /// dropped and the next is read. A failed read or write ends the
    /// forwarder, and so does an event that the state does not await.
    open spec fn next(self, event: ForwardEventView) -> (PacketForwarderView, ForwardActionView) {
        match (self, event) {
            (PacketForwarderView::Reading, ForwardEventView::Packet(bytes)) => if bytes.len() > 0 {
                (PacketForwarderView::Opening(bytes), ForwardActionView::OpenStream)
            } else {
                (PacketForwarderView::Reading, ForwardActionView::ReadPacket)
            },
            (PacketForwarderView::Opening(packet), ForwardEventView::StreamOpened) => (
                PacketForwarderView::Writing,
                ForwardActionView::WritePacket(packet),
            ),
            (PacketForwarderView::Opening(_), ForwardEventView::StreamRefused) => (
                PacketForwarderView::Reading,
                ForwardActionView::ReadPacket,
            ),
            (PacketForwarderView::Writing, ForwardEventView::Written) => (
                PacketForwarderView::Reading,
                ForwardActionView::ReadPacket,
            ),
            _ => (PacketForwarderView::Stopped, ForwardActionView::Stop),
        }
    }
}

impl PacketForwarder {
    /// A forwarder at its start, and the read it begins with.
    pub fn start() -> (r: (PacketForwarder, ForwardAction))
        ensures
            r.0@ == PacketForwarderView::Reading,
            r.1@ == ForwardActionView::ReadPacket,
    {
        (PacketForwarder::Reading, ForwardAction::ReadPacket)
    }

    /// Takes the outcome of the last action and decides the next one.
    pub fn step(self, event: ForwardEvent) -> (r: (PacketForwarder, ForwardAction))
        ensures
            r.0@ == self@.next(event@).0,
            r.1@ == self@.next(event@).1,
    {
        match self {
            PacketForwarder::Reading => match event {
                ForwardEvent::Packet(bytes) => if bytes.len() > 0 {
                    (PacketForwarder::Opening(bytes), ForwardAction::OpenStream)
                } else {
                    (PacketForwarder::Reading, ForwardAction::ReadPacket)
                },
                _ => (PacketForwarder::Stopped, ForwardAction::Stop),
            },
            PacketForwarder::Opening(packet) => match event {
                ForwardEvent::StreamOpened => (
                    PacketForwarder::Writing,
                    ForwardAction::WritePacket(packet),
                ),
                ForwardEvent::StreamRefused => (
                    PacketForwarder::Reading,
                    ForwardAction::ReadPacket,
                ),
                _ => (PacketForwarder::Stopped, ForwardAction::Stop),
            },
            PacketForwarder::Writing => match event {
                ForwardEvent::Written => (PacketForwarder::Reading, ForwardAction::ReadPacket),
                _ => (PacketForwarder::Stopped, ForwardAction::Stop),
            },
            PacketForwarder::Stopped => (PacketForwarder::Stopped, ForwardAction::Stop),
        }
    }

    /// Whether the forwarder has ended.
    pub fn is_stopped(&self) -> (stopped: bool)
        ensures
            stopped == (self@ == PacketForwarderView::Stopped),
    {
        match self {
            PacketForwarder::Stopped => true,
            _ => false,
        }
    }
}

/// A stream carries one read's worth of bytes. Whenever the forwarder writes,
/// the event before was the read of exactly the bytes it writes, that read
/// was answered by asking for a stream, and the write answers the grant of
/// that stream: no packet is split over streams and none shares a stream.
pub proof fn law_one_packet_per_stream(events: Seq<ForwardEventView>, i: int)
    requires
        0 <= i < events.len(),
        actions(PacketForwarderView::Reading, events)[i] is WritePacket,
    ensures
        i >= 1,
        events[i] == ForwardEventView::StreamOpened,
        actions(PacketForwarderView::Reading, events)[i - 1] == ForwardActionView::OpenStream,
        events[i - 1] == ForwardEventView::Packet(
            actions(PacketForwarderView::Reading, events)[i]->WritePacket_0,
        ),
        actions(PacketForwarderView::Reading, events)[i]->WritePacket_0.len() > 0,
{
    let start = PacketForwarderView::Reading;
    lemma_action_at(start, events, i);
    if i >= 1 {
        lemma_action_at(start, events, i - 1);
        lemma_run_step(start, events, i - 1);
    }
}

/// Every packet that is read is offered a stream, and a granted stream gets
/// the whole packet: in a trace that a driver produces, a non-empty read is
/// answered by asking for a stream, and the grant by writing that packet.
pub proof fn law_packet_reaches_its_stream(events: Seq<ForwardEventView>, i: int, packet: Seq<u8>)
    requires
        conforms(PacketForwarderView::Reading, events),
        0 <= i < events.len(),
        events[i] == ForwardEventView::Packet(packet),
        packet.len() > 0,
    ensures
        actions(PacketForwarderView::Reading, events)[i] == ForwardActionView::OpenStream,
        i + 1 < events.len() && events[i + 1] is StreamOpened ==> actions(
            PacketForwarderView::Reading,
            events,
        )[i + 1] == ForwardActionView::WritePacket(packet),
{
    let start = PacketForwarderView::Reading;
    lemma_conforms_prefix(start, events, i);
    lemma_action_at(start, events, i);
    if i + 1 < events.len() {
        lemma_action_at(start, events, i + 1);
        lemma_run_step(start, events, i);
    }
}

/// A refused stream costs one packet and no more. In a trace that a driver
/// produces, the forwarder answers a refusal by reading the next packet, and
/// offers that packet a stream like any other.
pub proof fn law_refusal_drops_one_packet(events: Seq<ForwardEventView>, i: int)
    requires
        conforms(PacketForwarderView::Reading, events),
        0 <= i < events.len(),
        events[i] is StreamRefused,
    ensures
        actions(PacketForwarderView::Reading, events)[i] == ForwardActionView::ReadPacket,
        run(PacketForwarderView::Reading, events.take(i + 1)) == PacketForwarderView::Reading,
        i + 1 < events.len() && events[i + 1] is Packet && events[i + 1]->Packet_0.len() > 0
            ==> actions(PacketForwarderView::Reading, events)[i + 1]
            == ForwardActionView::OpenStream,
{
    let start = PacketForwarderView::Reading;
    lemma_conforms_prefix(start, events, i);
    lemma_action_at(start, events, i);
    lemma_run_step(start, events, i);
    if i + 1 < events.len() {
        lemma_action_at(start, events, i + 1);
    }
}

/// A failed read of the interface ends forwarding for good: from that event
/// on every answer is to stop, whatever state the forwarder began in and
/// whatever is reported to it afterwards.
pub proof fn law_read_failure_is_final(
    start: PacketForwarderView,
    events: Seq<ForwardEventView>,
    i: int,
    j: int,
)
    requires
        0 <= i <= j < events.len(),
        events[i] is ReadFailed,
    ensures
        actions(start, events)[j] == ForwardActionView::Stop,
        run(start, events.take(j + 1)) == PacketForwarderView::Stopped,
    decreases j - i,
{
    lemma_action_at(start, events, j);
    lemma_run_step(start, events, j);
    if i < j {
        law_read_failure_is_final(start, events, i, j - 1);
    }
}

} // verus!
