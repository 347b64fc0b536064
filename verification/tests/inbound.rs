use reverse_tunnel::inbound::{InboundAcceptor, InboundAction, InboundEvent};

#[test]
fn inbound_starts_by_accepting() {
    assert_eq!(InboundAcceptor::start(), (InboundAcceptor::Accepting, InboundAction::Accept));
}

#[test]
fn every_accepted_stream_gets_a_relay() {
    let mut acceptor = InboundAcceptor::Accepting;
    for _ in 0..5 {
        let (next, action) = acceptor.step(InboundEvent::Accepted);
        assert_eq!(next, InboundAcceptor::Accepting);
        assert_eq!(action, InboundAction::SpawnRelay);
        acceptor = next;
    }
}

#[test]
fn failed_accept_ends_the_inbound_loop() {
    let (acceptor, action) = InboundAcceptor::Accepting.step(InboundEvent::AcceptFailed);
    assert_eq!((acceptor, action), (InboundAcceptor::Stopped, InboundAction::Stop));
    let (acceptor, action) = acceptor.step(InboundEvent::Accepted);
    assert_eq!((acceptor, action), (InboundAcceptor::Stopped, InboundAction::Stop));
    let (acceptor, action) = acceptor.step(InboundEvent::AcceptFailed);
    assert_eq!((acceptor, action), (InboundAcceptor::Stopped, InboundAction::Stop));
}
