use reverse_tunnel::forwarder::{ForwardAction, ForwardEvent, PacketForwarder};

fn feed_forwarder(
    start: PacketForwarder,
    events: Vec<ForwardEvent>,
) -> (PacketForwarder, Vec<ForwardAction>) {
    let mut forwarder = start;
    let mut actions = Vec::new();
    for event in events {
        let (next, action) = forwarder.step(event);
        forwarder = next;
        actions.push(action);
    }
    (forwarder, actions)
}

fn opened(actions: &[ForwardAction]) -> usize {
    actions.iter().filter(|a| matches!(a, ForwardAction::OpenStream)).count()
}

fn payloads(actions: &[ForwardAction]) -> Vec<Vec<u8>> {
    let mut sent = Vec::new();
    for action in actions {
        if let ForwardAction::WritePacket(bytes) = action {
            sent.push(bytes.clone());
        }
    }
    sent
}

#[test]
fn forwarder_starts_by_reading() {
    let (forwarder, first) = PacketForwarder::start();
    assert_eq!(forwarder, PacketForwarder::Reading);
    assert_eq!(first, ForwardAction::ReadPacket);
    assert!(!forwarder.is_stopped());
}

#[test]
fn two_packets_travel_on_two_streams() {
    let first: Vec<u8> = (0..40).collect();
    let second: Vec<u8> = (100..160).collect();
    let events = vec![
        ForwardEvent::Packet(first.clone()),
        ForwardEvent::StreamOpened,
        ForwardEvent::Written,
        ForwardEvent::Packet(second.clone()),
        ForwardEvent::StreamOpened,
        ForwardEvent::Written,
    ];
    let (forwarder, actions) = feed_forwarder(PacketForwarder::Reading, events);
    assert_eq!(forwarder, PacketForwarder::Reading);
    assert_eq!(opened(&actions), 2);
    let sent = payloads(&actions);
    assert_eq!(sent.len(), 2);
    assert_eq!(sent[0].len(), 40);
    assert_eq!(sent[1].len(), 60);
    assert_eq!(sent, vec![first.clone(), second.clone()]);
    assert_eq!(
        actions,
        vec![
            ForwardAction::OpenStream,
            ForwardAction::WritePacket(first),
            ForwardAction::ReadPacket,
            ForwardAction::OpenStream,
            ForwardAction::WritePacket(second),
            ForwardAction::ReadPacket,
        ]
    );
}

#[test]
fn packet_waits_for_its_stream() {
    let (forwarder, action) = PacketForwarder::Reading.step(ForwardEvent::Packet(vec![1, 2, 3]));
    assert_eq!(forwarder, PacketForwarder::Opening(vec![1, 2, 3]));
    assert_eq!(action, ForwardAction::OpenStream);
    let (forwarder, action) = forwarder.step(ForwardEvent::StreamOpened);
    assert_eq!(forwarder, PacketForwarder::Writing);
    assert_eq!(action, ForwardAction::WritePacket(vec![1, 2, 3]));
}

#[test]
fn empty_read_is_retried() {
    let (forwarder, action) = PacketForwarder::Reading.step(ForwardEvent::Packet(Vec::new()));
    assert_eq!(forwarder, PacketForwarder::Reading);
    assert_eq!(action, ForwardAction::ReadPacket);
    let events = vec![
        ForwardEvent::Packet(Vec::new()),
        ForwardEvent::Packet(Vec::new()),
        ForwardEvent::Packet(vec![7]),
    ];
    let (forwarder, actions) = feed_forwarder(PacketForwarder::Reading, events);
    assert_eq!(forwarder, PacketForwarder::Opening(vec![7]));
    assert_eq!(
        actions,
        vec![ForwardAction::ReadPacket, ForwardAction::ReadPacket, ForwardAction::OpenStream]
    );
}

#[test]
fn refused_stream_drops_the_packet_and_goes_on() {
    let events = vec![
        ForwardEvent::Packet(b"lost".to_vec()),
        ForwardEvent::StreamRefused,
        ForwardEvent::Packet(b"kept".to_vec()),
        ForwardEvent::StreamOpened,
        ForwardEvent::Written,
    ];
    let (forwarder, actions) = feed_forwarder(PacketForwarder::Reading, events);
    assert_eq!(forwarder, PacketForwarder::Reading);
    assert!(!forwarder.is_stopped());
    assert_eq!(
        actions,
        vec![
            ForwardAction::OpenStream,
            ForwardAction::ReadPacket,
            ForwardAction::OpenStream,
            ForwardAction::WritePacket(b"kept".to_vec()),
            ForwardAction::ReadPacket,
        ]
    );
    assert_eq!(payloads(&actions), vec![b"kept".to_vec()]);
}

#[test]
fn failed_read_stops_forwarding() {
    let events = vec![
        ForwardEvent::Packet(b"before".to_vec()),
        ForwardEvent::StreamOpened,
        ForwardEvent::Written,
        ForwardEvent::ReadFailed,
        ForwardEvent::Packet(b"after".to_vec()),
        ForwardEvent::StreamOpened,
        ForwardEvent::Written,
    ];
    let (forwarder, actions) = feed_forwarder(PacketForwarder::Reading, events);
    assert_eq!(forwarder, PacketForwarder::Stopped);
    assert!(forwarder.is_stopped());
    assert_eq!(opened(&actions), 1);
    assert_eq!(payloads(&actions), vec![b"before".to_vec()]);
    assert_eq!(&actions[3..], &vec![ForwardAction::Stop; 4][..]);
}

#[test]
fn failed_write_stops_forwarding() {
    let events = vec![
        ForwardEvent::Packet(vec![1]),
        ForwardEvent::StreamOpened,
        ForwardEvent::WriteFailed,
    ];
    let (forwarder, actions) = feed_forwarder(PacketForwarder::Reading, events);
    assert_eq!(forwarder, PacketForwarder::Stopped);
    assert_eq!(actions[2], ForwardAction::Stop);
}

#[test]
fn forwarder_stops_on_an_event_it_does_not_await() {
    let (forwarder, action) = PacketForwarder::Reading.step(ForwardEvent::StreamOpened);
    assert_eq!((forwarder, action), (PacketForwarder::Stopped, ForwardAction::Stop));
    let (forwarder, action) = PacketForwarder::Opening(vec![1]).step(ForwardEvent::Packet(vec![2]));
    assert_eq!((forwarder, action), (PacketForwarder::Stopped, ForwardAction::Stop));
    let (forwarder, action) = PacketForwarder::Writing.step(ForwardEvent::StreamRefused);
    assert_eq!((forwarder, action), (PacketForwarder::Stopped, ForwardAction::Stop));
    let (forwarder, action) = PacketForwarder::Stopped.step(ForwardEvent::Packet(vec![3]));
    assert_eq!((forwarder, action), (PacketForwarder::Stopped, ForwardAction::Stop));
}

#[test]
fn every_write_follows_the_read_of_its_bytes() {
    let packets: Vec<Vec<u8>> = vec![vec![1; 5], vec![2; 1500], vec![3; 1]];
    let mut events = Vec::new();
    for packet in &packets {
        events.push(ForwardEvent::Packet(packet.clone()));
        events.push(ForwardEvent::StreamOpened);
        events.push(ForwardEvent::Written);
    }
    let (_, actions) = feed_forwarder(PacketForwarder::Reading, events.clone());
    for (i, action) in actions.iter().enumerate() {
        if let ForwardAction::WritePacket(bytes) = action {
            assert!(i >= 1);
            assert_eq!(events[i], ForwardEvent::StreamOpened);
            assert_eq!(events[i - 1], ForwardEvent::Packet(bytes.clone()));
            assert_eq!(actions[i - 1], ForwardAction::OpenStream);
        }
    }
    assert_eq!(payloads(&actions), packets);
}
