use std::io;

use fast_socks5::util::stream::ConnectError;
use fast_socks5::{ReplyError, Socks5Command};
use pirohxy::access::AccessList;
use pirohxy::identity::{PeerIdentity, SecretKey};
use pirohxy::relay::{EndpointKind, RelayOutcome, RelayTask, Side};
use pirohxy::session::{wire_code, SessionAction, SessionEvent, SessionPhase, Socks, SocksSession};

fn peer(seed: u8) -> PeerIdentity {
    SecretKey::from_bytes(&[seed; 32]).public()
}

fn connecting_session() -> SocksSession {
    let mut s = Socks::new().start();
    assert!(matches!(s.on_event(SessionEvent::Peer { authorized: true }), SessionAction::AcceptStream));
    assert!(matches!(s.on_event(SessionEvent::Stream { accepted: true }), SessionAction::Negotiate));
    assert!(matches!(
        s.on_event(SessionEvent::Command(Some(Socks5Command::TCPConnect))),
        SessionAction::Resolve
    ));
    assert!(matches!(s.on_event(SessionEvent::Resolved { ok: true }), SessionAction::Connect));
    s
}

#[test]
fn unauthorized_peer_is_denied_before_any_stream() {
    let list = AccessList::new();
    let p = peer(3);
    let mut s = Socks::new().start();
    let authorized = list.is_authorized(&p);
    assert!(!authorized);
    assert!(matches!(s.on_event(SessionEvent::Peer { authorized }), SessionAction::Deny));
    assert_eq!(s.current(), SessionPhase::Denied);
    for e in [
        SessionEvent::Stream { accepted: true },
        SessionEvent::Command(Some(Socks5Command::TCPConnect)),
        SessionEvent::Resolved { ok: true },
        SessionEvent::Connected(Ok(())),
    ] {
        assert!(matches!(s.on_event(e), SessionAction::Ignore));
    }
    assert_eq!(s.current(), SessionPhase::Denied);
}

#[test]
fn bind_and_udp_associate_are_not_supported() {
    for cmd in [Socks5Command::TCPBind, Socks5Command::UDPAssociate] {
        let mut s = Socks::new().start();
        let _ = s.on_event(SessionEvent::Peer { authorized: true });
        let _ = s.on_event(SessionEvent::Stream { accepted: true });
        let action = s.on_event(SessionEvent::Command(Some(cmd)));
        match action {
            SessionAction::Reply(r) => assert_eq!(wire_code(r), 7),
            other => panic!("unexpected {other:?}"),
        }
        assert_eq!(s.current(), SessionPhase::Failed);
        assert!(matches!(s.on_event(SessionEvent::Resolved { ok: true }), SessionAction::Ignore));
        assert!(matches!(s.on_event(SessionEvent::Connected(Ok(()))), SessionAction::Ignore));
    }
}

#[test]
fn refused_target_gets_failure_reply_and_next_session_relays() {
    let mut s = connecting_session();
    let err = ConnectError::ConnectionRefused(io::Error::from(io::ErrorKind::ConnectionRefused));
    match s.on_event(SessionEvent::Connected(Err(err))) {
        SessionAction::Reply(r) => {
            assert!(matches!(r, ReplyError::ConnectionRefused));
            assert_eq!(wire_code(r), 5);
        }
        other => panic!("unexpected {other:?}"),
    }
    assert_eq!(s.current(), SessionPhase::Failed);

    let mut next = connecting_session();
    assert!(matches!(next.on_event(SessionEvent::Connected(Ok(()))), SessionAction::StartRelay));
    assert_eq!(next.current(), SessionPhase::Relaying);
    assert!(matches!(next.on_event(SessionEvent::RelayEnded(RelayOutcome::Completed)), SessionAction::Finish));
    assert_eq!(next.current(), SessionPhase::Done);
}

#[test]
fn connect_failures_map_to_replies() {
    let cases = [
        (ConnectError::ConnectionTimeout, 6u8),
        (ConnectError::ConnectionAborted(io::Error::from(io::ErrorKind::ConnectionAborted)), 2),
        (ConnectError::ConnectionReset(io::Error::from(io::ErrorKind::ConnectionReset)), 2),
        (ConnectError::NotConnected(io::Error::from(io::ErrorKind::NotConnected)), 3),
        (ConnectError::Other(io::Error::from(io::ErrorKind::Other)), 1),
    ];
    for (err, code) in cases {
        let mut s = connecting_session();
        match s.on_event(SessionEvent::Connected(Err(err))) {
            SessionAction::Reply(r) => assert_eq!(wire_code(r), code),
            other => panic!("unexpected {other:?}"),
        }
    }
}

#[test]
fn unresolvable_target_is_host_unreachable() {
    let mut s = Socks::new().start();
    let _ = s.on_event(SessionEvent::Peer { authorized: true });
    let _ = s.on_event(SessionEvent::Stream { accepted: true });
    let _ = s.on_event(SessionEvent::Command(Some(Socks5Command::TCPConnect)));
    match s.on_event(SessionEvent::Resolved { ok: false }) {
        SessionAction::Reply(r) => assert_eq!(wire_code(r), 4),
        other => panic!("unexpected {other:?}"),
    }
}

#[test]
fn bad_handshake_or_stream_aborts_without_reply() {
    let mut s = Socks::new().start();
    let _ = s.on_event(SessionEvent::Peer { authorized: true });
    let _ = s.on_event(SessionEvent::Stream { accepted: true });
    assert!(matches!(s.on_event(SessionEvent::Command(None)), SessionAction::Abort));
    assert_eq!(s.current(), SessionPhase::Failed);

    let mut t = Socks::new().start();
    let _ = t.on_event(SessionEvent::Peer { authorized: true });
    assert!(matches!(t.on_event(SessionEvent::Stream { accepted: false }), SessionAction::Abort));
    assert_eq!(t.current(), SessionPhase::Failed);
}

#[test]
fn out_of_order_events_are_ignored() {
    let mut s = Socks::new().start();
    assert!(matches!(s.on_event(SessionEvent::Resolved { ok: true }), SessionAction::Ignore));
    assert_eq!(s.current(), SessionPhase::AwaitingPeer);
}

#[test]
fn end_to_end_denied_then_allowed_ping_pong() {
    let mut list = AccessList::new();
    let p = peer(9);

    let mut first = Socks::new().start();
    assert!(matches!(
        first.on_event(SessionEvent::Peer { authorized: list.is_authorized(&p) }),
        SessionAction::Deny
    ));

    list.add(p);
    let mut second = Socks::new().start();
    assert!(matches!(
        second.on_event(SessionEvent::Peer { authorized: list.is_authorized(&p) }),
        SessionAction::AcceptStream
    ));
    let _ = second.on_event(SessionEvent::Stream { accepted: true });
    let _ = second.on_event(SessionEvent::Command(Some(Socks5Command::TCPConnect)));
    let _ = second.on_event(SessionEvent::Resolved { ok: true });
    assert!(matches!(second.on_event(SessionEvent::Connected(Ok(()))), SessionAction::StartRelay));

    // A is the transport stream of the client, B the target socket.
    let mut relay = RelayTask::new(EndpointKind::Transport, EndpointKind::Socket);
    let to_target = relay.on_data(Side::A, b"ping".to_vec()).unwrap();
    assert_eq!(to_target, b"ping".to_vec());
    assert!(relay.on_written(Side::A));
    let to_client = relay.on_data(Side::B, b"pong".to_vec()).unwrap();
    assert_eq!(to_client, b"pong".to_vec());
    assert!(relay.on_written(Side::B));
    let _ = relay.on_eof(Side::A);
    let _ = relay.on_eof(Side::B);
    let outcome = relay.outcome().unwrap();
    assert_eq!(outcome, RelayOutcome::Completed);
    assert!(matches!(second.on_event(SessionEvent::RelayEnded(outcome)), SessionAction::Finish));
    assert_eq!(second.current(), SessionPhase::Done);
}
