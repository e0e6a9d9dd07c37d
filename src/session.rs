//! The egress side of one authenticated session: the access decision, the
//! SOCKS5 command dispatch and the outbound connect, as a state machine.
//!
//! The caller performs each step's I/O (accepting the stream, the SOCKS5
//! handshake, name resolution, the TCP connect, the relay) and reports its
//! result as an event; the session answers with the next action.
use fast_socks5::util::stream::ConnectError;
use fast_socks5::{ReplyError, Socks5Command};
use vstd::prelude::*;

use crate::relay::RelayOutcome;

verus! {

#[verifier::external_type_specification]
pub struct ExSocks5Command(Socks5Command);

#[verifier::external_type_specification]
pub struct ExReplyError(ReplyError);

#[verifier::external_type_specification]
#[verifier::external_body]
pub struct ExIoError(std::io::Error);

#[verifier::external_type_specification]
pub struct ExConnectError(ConnectError);

/// The wire code of a SOCKS5 reply, as fast-socks5 writes it.
pub open spec fn reply_code(e: ReplyError) -> u8 {
    match e {
        ReplyError::Succeeded => 0x00,
        ReplyError::GeneralFailure => 0x01,
        ReplyError::ConnectionNotAllowed => 0x02,
        ReplyError::NetworkUnreachable => 0x03,
        ReplyError::HostUnreachable => 0x04,
        ReplyError::ConnectionRefused => 0x05,
        ReplyError::ConnectionTimeout => 0x06,
        ReplyError::TtlExpired => 0x06,
        ReplyError::CommandNotSupported => 0x07,
        ReplyError::AddressTypeNotSupported => 0x08,
    }
}

/// The reply that fast-socks5 sends for a failed outbound connect.
pub open spec fn connect_reply(e: ConnectError) -> ReplyError {
    match e {
        ConnectError::ConnectionTimeout => ReplyError::ConnectionTimeout,
        ConnectError::ConnectionRefused(_) => ReplyError::ConnectionRefused,
        ConnectError::ConnectionAborted(_) => ReplyError::ConnectionNotAllowed,
        ConnectError::ConnectionReset(_) => ReplyError::ConnectionNotAllowed,
        ConnectError::NotConnected(_) => ReplyError::NetworkUnreachable,
        ConnectError::Other(_) => ReplyError::GeneralFailure,
    }
}

/// Relies on fast_socks5::ReplyError::as_u8: the reply code of each variant.
pub assume_specification[ ReplyError::as_u8 ](e: ReplyError) -> (r: u8)
    ensures
        r == reply_code(e),
;

/// Relies on fast_socks5::util::stream::ConnectError::to_reply_error: the
/// reply for each kind of connect failure.
pub assume_specification[ ConnectError::to_reply_error ](e: &ConnectError) -> (r: ReplyError)
    ensures
        r == connect_reply(*e),
;

/// Seconds that the outbound TCP connect of a CONNECT command may take.
pub const CONNECT_TIMEOUT_SECS: u64 = 5;

/// Application close code of a session whose peer is not authorized.
pub const DENIED_CODE: u32 = 0;

/// Close reason of a session whose peer is not authorized.
pub const DENIED_REASON: &'static str = "not allowed";

/// Where a session stands.
#[derive(Clone, Copy, PartialEq, Eq, Debug, Structural)]
pub enum SessionPhase {
    /// Waiting for the access decision on the remote identity.
    AwaitingPeer,
    /// Authorized: one bidirectional stream is to be accepted.
    AwaitingStream,
    /// The SOCKS5 handshake and command are being read.
    Negotiating,
    /// The CONNECT target is being resolved.
    Resolving,
    /// The outbound TCP connect is under way.
    Connecting,
    /// The stream and the target socket are relayed.
    Relaying,
    /// The peer was refused; terminal.
    Denied,
    /// The session was aborted or answered with a failure reply; terminal.
    Failed,
    /// The relay is over; terminal.
    Done,
}

/// What the caller reports.
pub enum SessionEvent {
    /// The access controller's answer for the remote identity.
    Peer { authorized: bool },
    /// Whether a bidirectional stream was accepted.
    Stream { accepted: bool },
    /// The command read after a "no authentication" handshake, or `None` when
    /// the handshake or the command record was refused.
    Command(Option<Socks5Command>),
    /// Whether the target resolved to a socket address.
    Resolved { ok: bool },
    /// The result of the outbound TCP connect.
    Connected(Result<(), ConnectError>),
    /// The relay ended.
    RelayEnded(RelayOutcome),
}

/// What the caller is to do next.
#[derive(Clone, Copy, Debug)]
pub enum SessionAction {
    /// Close the session with `DENIED_CODE` and `DENIED_REASON`; accept no stream.
    Deny,
    AcceptStream,
    /// Run the "no authentication" handshake and read one command.
    Negotiate,
    Resolve,
    /// Connect to the resolved target within `CONNECT_TIMEOUT_SECS`.
    Connect,
    /// Send this failure reply, then end the session.
    Reply(ReplyError),
    /// Send the success reply, then relay the stream and the target socket.
    StartRelay,
    /// End the session without a reply.
    Abort,
    /// The relay is over: release the session.
    Finish,
    /// The event does not apply in this phase: nothing to do.
    Ignore,
}

/// One step of the session: the next phase and the action. A command other
/// than CONNECT is answered before any name resolution, so BIND and UDP
/// ASSOCIATE lead neither to a lookup nor to a connect.
pub open spec fn step(p: SessionPhase, e: SessionEvent) -> (SessionPhase, SessionAction) {
    match (p, e) {
        (SessionPhase::AwaitingPeer, SessionEvent::Peer { authorized }) => {
            if authorized {
                (SessionPhase::AwaitingStream, SessionAction::AcceptStream)
            } else {
                (SessionPhase::Denied, SessionAction::Deny)
            }
        },
        (SessionPhase::AwaitingStream, SessionEvent::Stream { accepted }) => {
            if accepted {
                (SessionPhase::Negotiating, SessionAction::Negotiate)
            } else {
                (SessionPhase::Failed, SessionAction::Abort)
            }
        },
        (SessionPhase::Negotiating, SessionEvent::Command(c)) => match c {
            Some(Socks5Command::TCPConnect) => (SessionPhase::Resolving, SessionAction::Resolve),
            Some(_) => (SessionPhase::Failed, SessionAction::Reply(ReplyError::CommandNotSupported)),
            None => (SessionPhase::Failed, SessionAction::Abort),
        },
        (SessionPhase::Resolving, SessionEvent::Resolved { ok }) => {
            if ok {
                (SessionPhase::Connecting, SessionAction::Connect)
            } else {
                (SessionPhase::Failed, SessionAction::Reply(ReplyError::HostUnreachable))
            }
        },
        (SessionPhase::Connecting, SessionEvent::Connected(r)) => match r {
            Ok(()) => (SessionPhase::Relaying, SessionAction::StartRelay),
            Err(err) => (SessionPhase::Failed, SessionAction::Reply(connect_reply(err))),
        },
        (SessionPhase::Relaying, SessionEvent::RelayEnded(_)) => (SessionPhase::Done, SessionAction::Finish),
        _ => (p, SessionAction::Ignore),
    }
}

/// The actions of a session that starts in `p` and receives `events` in order.
pub open spec fn run(p: SessionPhase, events: Seq<SessionEvent>) -> Seq<SessionAction>
    decreases events.len(),
{
    if events.len() == 0 {
        seq![]
    } else {
        let (q, a) = step(p, events[0]);
        seq![a] + run(q, events.drop_first())
    }
}

/// The phase that a session starting in `p` reaches after `events`.
pub open spec fn reach(p: SessionPhase, events: Seq<SessionEvent>) -> SessionPhase
    decreases events.len(),
{
    if events.len() == 0 {
        p
    } else {
        reach(step(p, events[0]).0, events.drop_first())
    }
}

/// Whether an action moves application bytes or opens a connection: anything
/// but denying, aborting, finishing or ignoring.
pub open spec fn exchanges(a: SessionAction) -> bool {
    !(a is Deny || a is Abort || a is Finish || a is Ignore)
}

pub open spec fn terminal(p: SessionPhase) -> bool {
    p == SessionPhase::Denied || p == SessionPhase::Failed || p == SessionPhase::Done
}

/// A terminal session ignores every event and stays where it is.
pub proof fn lemma_terminal_ignores(p: SessionPhase, events: Seq<SessionEvent>)
    requires
        terminal(p),
    ensures
        run(p, events).len() == events.len(),
        forall|i: int| 0 <= i < events.len() ==> (#[trigger] run(p, events)[i]) is Ignore,
        reach(p, events) == p,
    decreases events.len(),
{
    if events.len() > 0 {
        lemma_terminal_ignores(p, events.drop_first());
        let rest = run(p, events.drop_first());
        assert forall|i: int| 0 <= i < events.len() implies (#[trigger] run(p, events)[i]) is Ignore by {
            if i > 0 {
                assert(run(p, events)[i] == rest[i - 1]);
            }
        }
    }
}

/// A session whose peer is not authorized is closed with the denial before
/// anything else happens, and whatever is reported afterwards it accepts no
/// stream, sends no reply, connects nowhere and relays nothing.
pub proof fn lemma_denied_peer_exchanges_nothing(events: Seq<SessionEvent>)
    ensures
        ({
            let all = seq![SessionEvent::Peer { authorized: false }] + events;
            let acts = run(SessionPhase::AwaitingPeer, all);
            &&& acts.len() == all.len()
            &&& acts[0] is Deny
            &&& forall|i: int| 0 <= i < acts.len() ==> !exchanges(#[trigger] acts[i])
            &&& reach(SessionPhase::AwaitingPeer, all) == SessionPhase::Denied
        }),
{
    let all = seq![SessionEvent::Peer { authorized: false }] + events;
    assert(all.drop_first() =~= events);
    lemma_terminal_ignores(SessionPhase::Denied, events);
    let acts = run(SessionPhase::AwaitingPeer, all);
    assert forall|i: int| 0 <= i < acts.len() implies !exchanges(#[trigger] acts[i]) by {
        if i > 0 {
            assert(acts[i] == run(SessionPhase::Denied, events)[i - 1]);
        }
    }
}

/// BIND and UDP ASSOCIATE are answered with "command not supported", and
/// whatever is reported afterwards no outbound connection is attempted.
pub proof fn lemma_unsupported_command_never_connects(cmd: Socks5Command, events: Seq<SessionEvent>)
    requires
        cmd !is TCPConnect,
    ensures
        ({
            let all = seq![SessionEvent::Command(Some(cmd))] + events;
            let acts = run(SessionPhase::Negotiating, all);
            &&& acts.len() == all.len()
            &&& acts[0] == SessionAction::Reply(ReplyError::CommandNotSupported)
            &&& forall|i: int| 0 <= i < acts.len() ==> !((#[trigger] acts[i]) is Connect || acts[i] is StartRelay)
            &&& reach(SessionPhase::Negotiating, all) == SessionPhase::Failed
        }),
{
    let all = seq![SessionEvent::Command(Some(cmd))] + events;
    assert(all.drop_first() =~= events);
    lemma_terminal_ignores(SessionPhase::Failed, events);
    let acts = run(SessionPhase::Negotiating, all);
    assert forall|i: int| 0 <= i < acts.len() implies !((#[trigger] acts[i]) is Connect || acts[i] is StartRelay) by {
        if i > 0 {
            assert(acts[i] == run(SessionPhase::Failed, events)[i - 1]);
        }
    }
}

/// The events of a session whose authorized peer asks to CONNECT to a target
/// that resolves and accepts the connection.
pub open spec fn valid_connect() -> Seq<SessionEvent> {
    seq![
        SessionEvent::Peer { authorized: true },
        SessionEvent::Stream { accepted: true },
        SessionEvent::Command(Some(Socks5Command::TCPConnect)),
        SessionEvent::Resolved { ok: true },
        SessionEvent::Connected(Ok(())),
    ]
}

/// A refused outbound connect is answered with the "connection refused"
/// reply and ends that session; a session started afterwards for a valid
/// CONNECT still reaches the relay, since sessions share no state.
pub proof fn lemma_refused_target_then_valid_connect(err: std::io::Error, later: Seq<SessionEvent>)
    ensures
        step(SessionPhase::Connecting, SessionEvent::Connected(Err(ConnectError::ConnectionRefused(err))))
            == (SessionPhase::Failed, SessionAction::Reply(ReplyError::ConnectionRefused)),
        reply_code(ReplyError::ConnectionRefused) != reply_code(ReplyError::Succeeded),
        forall|i: int| 0 <= i < later.len() ==> (#[trigger] run(SessionPhase::Failed, later)[i]) is Ignore,
        run(SessionPhase::AwaitingPeer, valid_connect()).last() is StartRelay,
        reach(SessionPhase::AwaitingPeer, valid_connect()) == SessionPhase::Relaying,
{
    lemma_terminal_ignores(SessionPhase::Failed, later);
    let evs = valid_connect();
    reveal_with_fuel(run, 6);
    reveal_with_fuel(reach, 6);
    assert(evs.drop_first().drop_first().drop_first().drop_first().drop_first() =~= Seq::<SessionEvent>::empty());
    assert(run(SessionPhase::AwaitingPeer, evs).len() == 5);
}

/// The protocol handler of the egress side: it starts one session state
/// machine per accepted transport session.
#[derive(Clone, Copy, Debug)]
pub struct Socks;

impl Socks {
    pub fn new() -> (r: Socks) {
        Socks
    }

    /// A session for a freshly accepted transport session.
    pub fn start(&self) -> (r: SocksSession)
        ensures
            r.phase() == SessionPhase::AwaitingPeer,
    {
        SocksSession { phase: SessionPhase::AwaitingPeer }
    }
}

/// The state of one egress session.
pub struct SocksSession {
    phase: SessionPhase,
}

impl SocksSession {
    pub closed spec fn phase(&self) -> SessionPhase {
        self.phase
    }

    /// Where the session stands.
    pub fn current(&self) -> (r: SessionPhase)
        ensures
            r == self.phase(),
    {
        self.phase
    }

    /// Takes one event and returns the action that `step` gives.
    pub fn on_event(&mut self, e: SessionEvent) -> (r: SessionAction)
        ensures
            (final(self).phase(), r) == step(old(self).phase(), e),
    {
        let ghost e0 = e;
        let (next, action) = match (self.phase, e) {
            (SessionPhase::AwaitingPeer, SessionEvent::Peer { authorized }) => {
                if authorized {
                    (SessionPhase::AwaitingStream, SessionAction::AcceptStream)
                } else {
                    (SessionPhase::Denied, SessionAction::Deny)
                }
            },
            (SessionPhase::AwaitingStream, SessionEvent::Stream { accepted }) => {
                if accepted {
                    (SessionPhase::Negotiating, SessionAction::Negotiate)
                } else {
                    (SessionPhase::Failed, SessionAction::Abort)
                }
            },
            (SessionPhase::Negotiating, SessionEvent::Command(c)) => match c {
                Some(Socks5Command::TCPConnect) => (SessionPhase::Resolving, SessionAction::Resolve),
                Some(_) => (SessionPhase::Failed, SessionAction::Reply(ReplyError::CommandNotSupported)),
                None => (SessionPhase::Failed, SessionAction::Abort),
            },
            (SessionPhase::Resolving, SessionEvent::Resolved { ok }) => {
                if ok {
                    (SessionPhase::Connecting, SessionAction::Connect)
                } else {
                    (SessionPhase::Failed, SessionAction::Reply(ReplyError::HostUnreachable))
                }
            },
            (SessionPhase::Connecting, SessionEvent::Connected(r)) => match r {
                Ok(()) => (SessionPhase::Relaying, SessionAction::StartRelay),
                Err(err) => (SessionPhase::Failed, SessionAction::Reply(err.to_reply_error())),
            },
            (SessionPhase::Relaying, SessionEvent::RelayEnded(_)) => (SessionPhase::Done, SessionAction::Finish),
            (p, _) => (p, SessionAction::Ignore),
        };
        self.phase = next;
        action
    }
}

/// The wire code of a SOCKS5 reply.
pub fn wire_code(reply: ReplyError) -> (r: u8)
    ensures
        r == reply_code(reply),
{
    reply.as_u8()
}

} // verus!
