use reverse_tunnel::bridge::{Bridge, BridgeAction, BridgeEvent, Direction};
use reverse_tunnel::buffer::{filled, filled_packet, packet_buffer, packet_buffer_len, read_buffer};
use reverse_tunnel::config::DEFAULT_MTU;
use reverse_tunnel::drain::{Drain, DrainAction, DrainEvent};
use reverse_tunnel::forwarder::{ForwardAction, ForwardEvent, PacketForwarder};
use reverse_tunnel::inbound::{InboundAcceptor, InboundAction, InboundEvent};
use reverse_tunnel::listener::{PublicAcceptor, PublicAction, PublicEvent};
use reverse_tunnel::relay::{Relay, RelayAction, RelayEvent};

#[test]
fn public_request_reaches_the_interface_in_one_write() {
    // The server accepts the public client and pairs it with one stream.
    let mut streams_opened = 0;
    let (acceptor, action) = PublicAcceptor::start();
    assert_eq!(action, PublicAction::Accept);
    let (acceptor, action) = acceptor.step(PublicEvent::Connected);
    if action == PublicAction::OpenStream {
        streams_opened += 1;
    }
    let (acceptor, action) = acceptor.step(PublicEvent::StreamOpened);
    assert_eq!(action, PublicAction::SpawnBridge);
    assert_eq!(acceptor, PublicAcceptor::Accepting);
    assert_eq!(streams_opened, 1);

    // The bridge copies the request onto the stream.
    let mut on_stream: Vec<Vec<u8>> = Vec::new();
    let (bridge, first, _) = Bridge::start();
    assert_eq!(first, BridgeAction::Read(Direction::ToTunnel));
    let mut socket = read_buffer(8192);
    socket[..5].copy_from_slice(b"GET /");
    let event = BridgeEvent {
        direction: Direction::ToTunnel,
        outcome: RelayEvent::Chunk(filled(&socket, 5).unwrap()),
    };
    let (bridge, action) = bridge.step(event);
    if let BridgeAction::Write(Direction::ToTunnel, bytes) = action {
        on_stream.push(bytes);
    }
    assert_eq!(on_stream, vec![b"GET /".to_vec()]);
    let (bridge, action) =
        bridge.step(BridgeEvent { direction: Direction::ToTunnel, outcome: RelayEvent::Written });
    assert_eq!(action, BridgeAction::Read(Direction::ToTunnel));

    // The client accepts the stream and relays it into the interface.
    let (inbound, action) = InboundAcceptor::start();
    assert_eq!(action, InboundAction::Accept);
    let (_, action) = inbound.step(InboundEvent::Accepted);
    assert_eq!(action, InboundAction::SpawnRelay);
    let mut interface_writes: Vec<Vec<u8>> = Vec::new();
    let (relay, action) = Relay::start();
    assert_eq!(action, RelayAction::Read);
    let mut buf = read_buffer(packet_buffer_len(DEFAULT_MTU).unwrap());
    buf[..5].copy_from_slice(&on_stream[0]);
    let (relay, action) = relay.step(RelayEvent::Chunk(filled(&buf, 5).unwrap()));
    if let RelayAction::Write(bytes) = action {
        interface_writes.push(bytes);
    }
    let (relay, action) = relay.step(RelayEvent::Written);
    assert_eq!(action, RelayAction::Read);

    // The public client closes: the bridge ends, and with it the stream.
    let (bridge, action) = bridge.step(BridgeEvent {
        direction: Direction::ToTunnel,
        outcome: RelayEvent::Chunk(Vec::new()),
    });
    assert_eq!(action, BridgeAction::Close);
    assert!(bridge.is_closed());
    let (relay, action) = relay.step(RelayEvent::Chunk(Vec::new()));
    assert_eq!(action, RelayAction::Close);
    assert!(relay.is_closed());
    assert_eq!(interface_writes, vec![b"GET /".to_vec()]);
}

#[test]
fn packets_of_40_and_60_bytes_open_two_streams() {
    let mut buf = packet_buffer(DEFAULT_MTU).unwrap();
    let mut streams: Vec<Vec<u8>> = Vec::new();
    let mut opened = 0;
    let (mut forwarder, mut action) = PacketForwarder::start();
    for (n, fill) in [(40usize, 0xaau8), (60usize, 0xbbu8)] {
        assert_eq!(action, ForwardAction::ReadPacket);
        for byte in buf[..n].iter_mut() {
            *byte = fill;
        }
        let step = forwarder.step(ForwardEvent::Packet(filled_packet(&buf, n).unwrap()));
        assert_eq!(step.1, ForwardAction::OpenStream);
        opened += 1;
        let step = step.0.step(ForwardEvent::StreamOpened);
        match step.1 {
            ForwardAction::WritePacket(bytes) => streams.push(bytes),
            other => panic!("expected a write, got {:?}", other),
        }
        let step = step.0.step(ForwardEvent::Written);
        forwarder = step.0;
        action = step.1;
    }
    assert_eq!(opened, 2);
    assert_eq!(streams.len(), 2);
    assert_eq!(streams[0], vec![0xaau8; 40]);
    assert_eq!(streams[1], vec![0xbbu8; 60]);
    assert!(streams.iter().all(|s| s.len() != 100));
}

#[test]
fn forwarded_packets_are_drained_by_the_server() {
    let (mut drain, mut action) = Drain::start();
    let mut discarded = 0;
    for n in [40usize, 60] {
        assert_eq!(action, DrainAction::Accept);
        let step = drain.step(DrainEvent::Accepted);
        assert_eq!(step.1, DrainAction::Read);
        let step = step.0.step(DrainEvent::Read(n));
        assert_eq!(step.1, DrainAction::Read);
        discarded += n;
        let step = step.0.step(DrainEvent::Read(0));
        drain = step.0;
        action = step.1;
    }
    assert_eq!(drain, Drain::Accepting);
    assert_eq!(action, DrainAction::Accept);
    assert_eq!(discarded, 100);
}
