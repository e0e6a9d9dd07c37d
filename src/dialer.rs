//! The client side: a local listener whose every accepted connection is
//! relayed over its own session to one configured peer.
//!
//! Shutdown policy: the top-level shutdown signal only stops the admission of
//! new local connections. Relays already admitted are not cancelled by it;
//! they run to their own end, and the dialer exits once none is left.
use vstd::prelude::*;

verus! {

/// Application close code of a session whose relay has ended.
pub const RELAY_EXIT_CODE: u32 = 1;

/// Close reason of a session whose relay has ended.
pub const RELAY_EXIT_REASON: &'static str = "BiDi exit";

/// What the caller reports to the dialer.
#[derive(Clone, Copy, PartialEq, Eq, Debug, Structural)]
pub enum DialerEvent {
    /// A local connection was accepted.
    Accepted,
    /// Accepting a local connection failed.
    AcceptFailed,
    /// The top-level shutdown signal.
    Shutdown,
    /// One admitted relay has ended and its session was closed.
    RelayEnded,
}

/// What the caller is to do next.
#[derive(Clone, Copy, PartialEq, Eq, Debug, Structural)]
pub enum DialerAction {
    /// Dial the peer for the accepted connection, open one stream and relay
    /// the two; then close the session with `RELAY_EXIT_CODE`.
    SpawnRelay,
    /// Drop the accepted connection without dialing.
    Refuse,
    /// Go on accepting.
    Listen,
    /// Accept no more; wait for the admitted relays to end.
    Drain,
    /// Nothing is left to do: stop.
    Exit,
}

pub struct DialerView {
    pub accepting: bool,
    pub in_flight: nat,
}

/// One step of the dialer, with at most `u64::MAX` relays in flight.
pub open spec fn dialer_step(v: DialerView, e: DialerEvent) -> (DialerView, DialerAction) {
    match e {
        DialerEvent::Accepted => {
            if v.accepting && v.in_flight < u64::MAX {
                (DialerView { in_flight: v.in_flight + 1, ..v }, DialerAction::SpawnRelay)
            } else {
                (v, DialerAction::Refuse)
            }
        },
        DialerEvent::AcceptFailed => {
            (v, if v.accepting { DialerAction::Listen } else if v.in_flight == 0 { DialerAction::Exit } else { DialerAction::Drain })
        },
        DialerEvent::Shutdown => {
            let w = DialerView { accepting: false, ..v };
            (w, if v.in_flight == 0 { DialerAction::Exit } else { DialerAction::Drain })
        },
        DialerEvent::RelayEnded => {
            let n = if v.in_flight > 0 { (v.in_flight - 1) as nat } else { 0 };
            let w = DialerView { in_flight: n, ..v };
            (w, if v.accepting { DialerAction::Listen } else if n == 0 { DialerAction::Exit } else { DialerAction::Drain })
        },
    }
}

/// The actions of a dialer that starts as `v` and receives `events` in order.
pub open spec fn dialer_run(v: DialerView, events: Seq<DialerEvent>) -> Seq<DialerAction>
    decreases events.len(),
{
    if events.len() == 0 {
        seq![]
    } else {
        let (w, a) = dialer_step(v, events[0]);
        seq![a] + dialer_run(w, events.drop_first())
    }
}

/// The accept loop of the client side.
pub struct ClientDialer {
    accepting: bool,
    in_flight: u64,
}

impl View for ClientDialer {
    type V = DialerView;

    closed spec fn view(&self) -> DialerView {
        DialerView { accepting: self.accepting, in_flight: self.in_flight as nat }
    }
}

impl ClientDialer {
    /// A dialer that accepts and has no relay in flight.
    pub fn new() -> (r: ClientDialer)
        ensures
            r@ == (DialerView { accepting: true, in_flight: 0 }),
    {
        ClientDialer { accepting: true, in_flight: 0 }
    }

    /// Number of admitted relays that have not ended.
    pub fn in_flight(&self) -> (r: u64)
        ensures
            r == self@.in_flight,
    {
        self.in_flight
    }

    /// Takes one event and returns the action that `dialer_step` gives.
    pub fn on_event(&mut self, e: DialerEvent) -> (r: DialerAction)
        ensures
            (final(self)@, r) == dialer_step(old(self)@, e),
    {
        match e {
            DialerEvent::Accepted => {
                if self.accepting && self.in_flight < u64::MAX {
                    self.in_flight = self.in_flight + 1;
                    DialerAction::SpawnRelay
                } else {
                    DialerAction::Refuse
                }
            },
            DialerEvent::AcceptFailed => {
                if self.accepting {
                    DialerAction::Listen
                } else if self.in_flight == 0 {
                    DialerAction::Exit
                } else {
                    DialerAction::Drain
                }
            },
            DialerEvent::Shutdown => {
                self.accepting = false;
                if self.in_flight == 0 {
                    DialerAction::Exit
                } else {
                    DialerAction::Drain
                }
            },
            DialerEvent::RelayEnded => {
                if self.in_flight > 0 {
                    self.in_flight = self.in_flight - 1;
                }
                if self.accepting {
                    DialerAction::Listen
                } else if self.in_flight == 0 {
                    DialerAction::Exit
                } else {
                    DialerAction::Drain
                }
            },
        }
    }
}

/// After the shutdown signal no new relay is started, whatever is reported
/// afterwards; and the dialer exits at once when no relay is in flight.
pub proof fn lemma_no_relay_after_shutdown(v: DialerView, events: Seq<DialerEvent>)
    ensures
        ({
            let acts = dialer_run(v, seq![DialerEvent::Shutdown] + events);
            &&& acts.len() == events.len() + 1
            &&& forall|i: int| 0 <= i < acts.len() ==> (#[trigger] acts[i]) != DialerAction::SpawnRelay
            &&& v.in_flight == 0 ==> acts[0] == DialerAction::Exit
        }),
{
    let all = seq![DialerEvent::Shutdown] + events;
    assert(all.drop_first() =~= events);
    lemma_closed_dialer_spawns_nothing(DialerView { accepting: false, ..v }, events);
    let acts = dialer_run(v, all);
    assert forall|i: int| 0 <= i < acts.len() implies (#[trigger] acts[i]) != DialerAction::SpawnRelay by {
        if i > 0 {
            assert(acts[i] == dialer_run(DialerView { accepting: false, ..v }, events)[i - 1]);
        }
    }
}

/// A dialer that no longer accepts never starts a relay.
proof fn lemma_closed_dialer_spawns_nothing(v: DialerView, events: Seq<DialerEvent>)
    requires
        !v.accepting,
    ensures
        dialer_run(v, events).len() == events.len(),
        forall|i: int| 0 <= i < events.len() ==> (#[trigger] dialer_run(v, events)[i]) != DialerAction::SpawnRelay,
    decreases events.len(),
{
    if events.len() > 0 {
        let (w, a) = dialer_step(v, events[0]);
        lemma_closed_dialer_spawns_nothing(w, events.drop_first());
        assert forall|i: int| 0 <= i < events.len() implies (#[trigger] dialer_run(v, events)[i]) != DialerAction::SpawnRelay by {
            if i > 0 {
                assert(dialer_run(v, events)[i] == dialer_run(w, events.drop_first())[i - 1]);
            }
        }
    }
}

} // verus!
