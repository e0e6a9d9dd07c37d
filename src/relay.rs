//! The relay engine: two forwarding legs between two duplex endpoints, with
//! one shared cancellation signal.
//!
//! The leg "from side s" reads the receive half of `s` and writes the send
//! half of the other side. The caller performs the I/O and reports each
//! outcome; the task answers with what to write and which halves to close.
use vstd::prelude::*;

verus! {

/// One of the two duplex endpoints that a relay bridges.
#[derive(Clone, Copy, PartialEq, Eq, Debug, Structural)]
pub enum Side {
    A,
    B,
}

/// What kind of byte channel an endpoint is.
#[derive(Clone, Copy, PartialEq, Eq, Debug, Structural)]
pub enum EndpointKind {
    /// A stream of the peer-to-peer transport: its send half is finished or
    /// reset, its receive half may be stopped.
    Transport,
    /// A plain TCP socket: its halves are simply dropped.
    Socket,
}

/// The direction of a half of an endpoint.
#[derive(Clone, Copy, PartialEq, Eq, Debug, Structural)]
pub enum HalfDir {
    Recv,
    Send,
}

/// A half of one of the two endpoints.
#[derive(Clone, Copy, PartialEq, Eq, Debug, Structural)]
pub struct Half {
    pub side: Side,
    pub dir: HalfDir,
}

/// How a half is brought to its end.
#[derive(Clone, Copy, PartialEq, Eq, Debug, Structural)]
pub enum Teardown {
    /// Graceful end of data on a transport send half.
    Finish,
    /// Abort of a transport send half; buffered data is discarded.
    Reset,
    /// "No longer interested" on a transport receive half.
    Stop,
    /// Drop the half: a socket half, or a receive half read to its end.
    Release,
}

/// An instruction to terminate one half in one way.
#[derive(Clone, Copy, PartialEq, Eq, Debug, Structural)]
pub struct Closing {
    pub half: Half,
    pub op: Teardown,
}

/// How a leg ended.
#[derive(Clone, Copy, PartialEq, Eq, Debug, Structural)]
pub enum LegEnd {
    /// Its source reached a clean end and everything read was written.
    Completed,
    /// An I/O error occurred in it.
    Failed,
    /// It was torn down by the shared cancellation.
    Cancelled,
}

/// Where a leg stands.
#[derive(Clone, Copy, PartialEq, Eq, Debug, Structural)]
pub enum LegPhase {
    /// Waiting for the next chunk from its source.
    Reading,
    /// A chunk was read and is being written to its sink.
    Writing,
    Ended(LegEnd),
}

/// The result of a relay once both legs have ended.
#[derive(Clone, Copy, PartialEq, Eq, Debug, Structural)]
pub enum RelayOutcome {
    Completed,
    Cancelled,
    IoError,
}

/// Size of the buffer that each leg reads into. A leg holds at most one chunk
/// that it has read and not yet written, so a stalled sink stalls its source.
pub const RELAY_CHUNK: usize = 8192;

pub open spec fn other(s: Side) -> Side {
    match s {
        Side::A => Side::B,
        Side::B => Side::A,
    }
}

/// The opposite side.
pub fn other_side(s: Side) -> (r: Side)
    ensures
        r == other(s),
{
    match s {
        Side::A => Side::B,
        Side::B => Side::A,
    }
}

/// The side whose receive half the leg owning `h` reads.
pub open spec fn leg_of(h: Half) -> Side {
    match h.dir {
        HalfDir::Recv => h.side,
        HalfDir::Send => other(h.side),
    }
}

pub open spec fn running(p: LegPhase) -> bool {
    !(p is Ended)
}

/// The bytes a leg has seen: read from its source, written to its sink, and
/// read but not yet written.
pub struct LegView {
    pub phase: LegPhase,
    pub received: Seq<u8>,
    pub delivered: Seq<u8>,
    pub pending: Seq<u8>,
}

pub struct RelayView {
    pub a: EndpointKind,
    pub b: EndpointKind,
    pub from_a: LegView,
    pub from_b: LegView,
    /// The shared cancellation signal has been raised.
    pub cancelled: bool,
    /// Every closing handed out so far, in order.
    pub closings: Seq<Closing>,
}

/// The closings that end the leg from `from`: gracefully when `clean`,
/// otherwise by abort.
pub open spec fn leg_closings(a: EndpointKind, b: EndpointKind, from: Side, clean: bool) -> Seq<Closing> {
    let src_kind = if from == Side::A { a } else { b };
    let dst_kind = if from == Side::A { b } else { a };
    let recv_op = if clean || src_kind == EndpointKind::Socket { Teardown::Release } else { Teardown::Stop };
    let send_op = if dst_kind == EndpointKind::Socket {
        Teardown::Release
    } else if clean {
        Teardown::Finish
    } else {
        Teardown::Reset
    };
    seq![
        Closing { half: Half { side: from, dir: HalfDir::Recv }, op: recv_op },
        Closing { half: Half { side: other(from), dir: HalfDir::Send }, op: send_op },
    ]
}

pub open spec fn logged(cl: Seq<Closing>, h: Half) -> bool {
    exists|i: int| 0 <= i < cl.len() && (#[trigger] cl[i]).half == h
}

/// No half is closed twice.
pub open spec fn halves_distinct(cl: Seq<Closing>) -> bool {
    forall|i: int, j: int| 0 <= i < j < cl.len() ==> (#[trigger] cl[i]).half != (#[trigger] cl[j]).half
}

impl LegView {
    /// What was written is what was read, in order, up to the chunk in flight.
    pub open spec fn wf(self) -> bool {
        &&& self.delivered.is_prefix_of(self.received)
        &&& self.phase == LegPhase::Reading ==> self.delivered == self.received
        &&& self.phase == LegPhase::Writing ==> self.delivered + self.pending == self.received
        &&& self.phase == LegPhase::Ended(LegEnd::Completed) ==> self.delivered == self.received
    }
}

impl RelayView {
    pub open spec fn leg(self, from: Side) -> LegView {
        if from == Side::A { self.from_a } else { self.from_b }
    }

    /// A half is open while the leg that owns it runs.
    pub open spec fn is_open(self, h: Half) -> bool {
        running(self.leg(leg_of(h)).phase)
    }

    pub open spec fn finished(self) -> bool {
        !running(self.from_a.phase) && !running(self.from_b.phase)
    }

    pub open spec fn outcome(self) -> RelayOutcome {
        if self.from_a.phase == LegPhase::Ended(LegEnd::Failed)
            || self.from_b.phase == LegPhase::Ended(LegEnd::Failed) {
            RelayOutcome::IoError
        } else if self.from_a.phase == LegPhase::Ended(LegEnd::Cancelled)
            || self.from_b.phase == LegPhase::Ended(LegEnd::Cancelled) {
            RelayOutcome::Cancelled
        } else {
            RelayOutcome::Completed
        }
    }

    pub open spec fn wf(self) -> bool {
        &&& self.from_a.wf()
        &&& self.from_b.wf()
        &&& halves_distinct(self.closings)
        &&& forall|i: int| 0 <= i < self.closings.len() ==> !self.is_open(#[trigger] self.closings[i].half)
        &&& forall|h: Half| !(#[trigger] self.is_open(h)) ==> logged(self.closings, h)
        &&& self.cancelled ==> self.finished()
        &&& self.from_a.phase == LegPhase::Ended(LegEnd::Failed) ==> self.cancelled
        &&& self.from_b.phase == LegPhase::Ended(LegEnd::Failed) ==> self.cancelled
    }

    /// The view after the leg from `from` ends with `end`, its halves closed.
    pub open spec fn end_leg(self, from: Side, end: LegEnd) -> RelayView {
        let leg = LegView { phase: LegPhase::Ended(end), ..self.leg(from) };
        let closings = self.closings + leg_closings(self.a, self.b, from, end == LegEnd::Completed);
        if from == Side::A {
            RelayView { from_a: leg, closings, ..self }
        } else {
            RelayView { from_b: leg, closings, ..self }
        }
    }

    /// The view after the shared cancellation: every running leg ends as
    /// cancelled, with its halves aborted.
    pub open spec fn cancel_all(self) -> RelayView {
        let v1 = if running(self.from_a.phase) { self.end_leg(Side::A, LegEnd::Cancelled) } else { self };
        let v2 = if running(v1.from_b.phase) { v1.end_leg(Side::B, LegEnd::Cancelled) } else { v1 };
        RelayView { cancelled: true, ..v2 }
    }

    /// The view after an I/O error on the running leg from `from`: the other
    /// leg, if it still runs, is cancelled, then the leg fails and the shared
    /// cancellation is raised.
    pub open spec fn fail_leg(self, from: Side) -> RelayView {
        let v1 = if running(self.leg(other(from)).phase) {
            self.end_leg(other(from), LegEnd::Cancelled)
        } else {
            self
        };
        RelayView { cancelled: true, ..v1.end_leg(from, LegEnd::Failed) }
    }
}

/// Ending a running leg keeps the view well formed and closes exactly that
/// leg's two halves. `raise` tells whether the shared cancellation is raised
/// in the same step, which is owed when the leg fails and allowed only once
/// no other leg runs.
proof fn lemma_end_leg(v: RelayView, from: Side, end: LegEnd, raise: bool)
    requires
        v.wf(),
        running(v.leg(from).phase),
        end == LegEnd::Completed ==> v.leg(from).phase == LegPhase::Reading,
        end == LegEnd::Failed ==> raise,
        raise ==> !running(v.leg(other(from)).phase),
    ensures
        ({
            let w = RelayView { cancelled: raise, ..v.end_leg(from, end) };
            &&& w.wf()
            &&& w.leg(from).phase == LegPhase::Ended(end)
            &&& w.leg(other(from)) == v.leg(other(from))
            &&& forall|h: Half| #[trigger] w.is_open(h) == (v.is_open(h) && leg_of(h) != from)
        }),
{
    let w = RelayView { cancelled: raise, ..v.end_leg(from, end) };
    let new = leg_closings(v.a, v.b, from, end == LegEnd::Completed);
    assert(!v.cancelled);
    assert(w.closings == v.closings + new);
    assert forall|i: int, j: int| 0 <= i < j < w.closings.len() implies
        (#[trigger] w.closings[i]).half != (#[trigger] w.closings[j]).half by {
        if j >= v.closings.len() {
            if i < v.closings.len() {
                assert(!v.is_open(v.closings[i].half));
                assert(leg_of(w.closings[j].half) == from);
            }
        }
    }
    assert forall|i: int| 0 <= i < w.closings.len() implies !w.is_open(#[trigger] w.closings[i].half) by {
        if i < v.closings.len() {
            assert(w.closings[i] == v.closings[i]);
            assert(!v.is_open(v.closings[i].half));
        }
    }
    assert forall|h: Half| !w.is_open(h) implies logged(w.closings, h) by {
        if leg_of(h) == from {
            if h.dir == HalfDir::Recv {
                assert(w.closings[v.closings.len() as int].half == h);
            } else {
                assert(w.closings[v.closings.len() as int + 1].half == h);
            }
        } else {
            assert(!v.is_open(h));
            let i = choose|i: int| 0 <= i < v.closings.len() && (#[trigger] v.closings[i]).half == h;
            assert(w.closings[i] == v.closings[i]);
        }
    }
}

/// Each leg writes to its sink exactly the bytes it read from its source, in
/// the order read: what was written is always a prefix of what was read, the
/// two differ at most by the chunk in flight, and they are equal once the leg
/// has completed.
pub proof fn lemma_bytes_delivered_in_order(v: RelayView, from: Side)
    requires
        v.wf(),
    ensures
        v.leg(from).delivered.is_prefix_of(v.leg(from).received),
        v.leg(from).phase == LegPhase::Writing ==> v.leg(from).delivered + v.leg(from).pending == v.leg(from).received,
        v.leg(from).phase == LegPhase::Ended(LegEnd::Completed) ==> v.leg(from).delivered == v.leg(from).received,
{
}

/// No half is terminated twice: every step only appends to the closings
/// handed out, and within them any two name different halves.
pub proof fn lemma_half_closed_at_most_once(v: RelayView, i: int, j: int)
    requires
        v.wf(),
        0 <= i < v.closings.len(),
        0 <= j < v.closings.len(),
        i != j,
    ensures
        v.closings[i].half != v.closings[j].half,
{
    if i > j {
        assert(v.closings[j].half != v.closings[i].half);
    }
}

/// Exec state of one leg; the byte logs are ghost.
#[derive(Clone, Copy)]
struct Leg {
    phase: LegPhase,
    received: Ghost<Seq<u8>>,
    delivered: Ghost<Seq<u8>>,
    pending: Ghost<Seq<u8>>,
}

impl Leg {
    spec fn view(&self) -> LegView {
        LegView {
            phase: self.phase,
            received: self.received@,
            delivered: self.delivered@,
            pending: self.pending@,
        }
    }
}

/// A relay between endpoint `A` and endpoint `B`.
pub struct RelayTask {
    a: EndpointKind,
    b: EndpointKind,
    from_a: Leg,
    from_b: Leg,
    cancelled: bool,
    closings: Ghost<Seq<Closing>>,
}

impl View for RelayTask {
    type V = RelayView;

    closed spec fn view(&self) -> RelayView {
        RelayView {
            a: self.a,
            b: self.b,
            from_a: self.from_a.view(),
            from_b: self.from_b.view(),
            cancelled: self.cancelled,
            closings: self.closings@,
        }
    }
}

fn closings_of(a: EndpointKind, b: EndpointKind, from: Side, clean: bool) -> (r: Vec<Closing>)
    ensures
        r@ == leg_closings(a, b, from, clean),
{
    let (src_kind, dst_kind) = match from {
        Side::A => (a, b),
        Side::B => (b, a),
    };
    let recv_op = if clean || src_kind == EndpointKind::Socket {
        Teardown::Release
    } else {
        Teardown::Stop
    };
    let send_op = if dst_kind == EndpointKind::Socket {
        Teardown::Release
    } else if clean {
        Teardown::Finish
    } else {
        Teardown::Reset
    };
    let to = other_side(from);
    let mut r: Vec<Closing> = Vec::new();
    r.push(Closing { half: Half { side: from, dir: HalfDir::Recv }, op: recv_op });
    r.push(Closing { half: Half { side: to, dir: HalfDir::Send }, op: send_op });
    proof {
        assert(r@ =~= leg_closings(a, b, from, clean));
    }
    r
}

impl RelayTask {
    #[verifier::type_invariant]
    spec fn inv(self) -> bool {
        self@.wf()
    }

    /// A relay whose two legs are both waiting for their first chunk.
    pub fn new(a: EndpointKind, b: EndpointKind) -> (r: RelayTask)
        ensures
            r@.a == a,
            r@.b == b,
            r@.from_a == (LegView { phase: LegPhase::Reading, received: seq![], delivered: seq![], pending: seq![] }),
            r@.from_b == (LegView { phase: LegPhase::Reading, received: seq![], delivered: seq![], pending: seq![] }),
            !r@.cancelled,
            r@.closings == Seq::<Closing>::empty(),
            r@.wf(),
    {
        let from_a = Leg { phase: LegPhase::Reading, received: Ghost(Seq::empty()), delivered: Ghost(Seq::empty()), pending: Ghost(Seq::empty()) };
        let from_b = Leg { phase: LegPhase::Reading, received: Ghost(Seq::empty()), delivered: Ghost(Seq::empty()), pending: Ghost(Seq::empty()) };
        RelayTask { a, b, from_a, from_b, cancelled: false, closings: Ghost(Seq::empty()) }
    }

    /// Where the leg from `from` stands.
    pub fn phase(&self, from: Side) -> (r: LegPhase)
        ensures
            r == self@.leg(from).phase,
    {
        match from {
            Side::A => self.from_a.phase,
            Side::B => self.from_b.phase,
        }
    }

    /// Whether both legs have ended.
    pub fn is_finished(&self) -> (r: bool)
        ensures
            r == self@.finished(),
    {
        !matches!(self.from_a.phase, LegPhase::Reading | LegPhase::Writing)
            && !matches!(self.from_b.phase, LegPhase::Reading | LegPhase::Writing)
    }

    /// The outcome, once both legs have ended.
    pub fn outcome(&self) -> (r: Option<RelayOutcome>)
        ensures
            r == (if self@.finished() { Some(self@.outcome()) } else { None::<RelayOutcome> }),
    {
        if !self.is_finished() {
            return None;
        }
        let a = self.from_a.phase;
        let b = self.from_b.phase;
        if a == LegPhase::Ended(LegEnd::Failed) || b == LegPhase::Ended(LegEnd::Failed) {
            Some(RelayOutcome::IoError)
        } else if a == LegPhase::Ended(LegEnd::Cancelled) || b == LegPhase::Ended(LegEnd::Cancelled) {
            Some(RelayOutcome::Cancelled)
        } else {
            Some(RelayOutcome::Completed)
        }
    }

    /// The leg from `from` read `chunk`. While that leg is reading, the chunk
    /// is handed back to be written to its sink whole; otherwise (the leg has
    /// ended) it is discarded.
    pub fn on_data(&mut self, from: Side, chunk: Vec<u8>) -> (r: Option<Vec<u8>>)
        ensures
            final(self)@.wf(),
            old(self)@.leg(from).phase == LegPhase::Reading ==> {
                &&& r == Some(chunk)
                &&& final(self)@.leg(from) == (LegView {
                    phase: LegPhase::Writing,
                    received: old(self)@.leg(from).received + chunk@,
                    delivered: old(self)@.leg(from).delivered,
                    pending: chunk@,
                })
                &&& final(self)@.leg(other(from)) == old(self)@.leg(other(from))
                &&& final(self)@.closings == old(self)@.closings
                &&& final(self)@.cancelled == old(self)@.cancelled
                &&& final(self)@.a == old(self)@.a && final(self)@.b == old(self)@.b
            },
            old(self)@.leg(from).phase != LegPhase::Reading ==> r.is_none() && final(self)@ == old(self)@,
    {
        proof {
            use_type_invariant(&*self);
        }
        let leg = match from {
            Side::A => self.from_a,
            Side::B => self.from_b,
        };
        if leg.phase != LegPhase::Reading {
            return None;
        }
        let next = Leg {
            phase: LegPhase::Writing,
            received: Ghost(leg.received@ + chunk@),
            delivered: leg.delivered,
            pending: Ghost(chunk@),
        };
        self.set_leg(from, next);
        Some(chunk)
    }

    /// The chunk in flight on the leg from `from` was written whole. Returns
    /// whether that leg goes on reading.
    pub fn on_written(&mut self, from: Side) -> (r: bool)
        ensures
            final(self)@.wf(),
            r == (old(self)@.leg(from).phase == LegPhase::Writing),
            r ==> {
                &&& final(self)@.leg(from) == (LegView {
                    phase: LegPhase::Reading,
                    received: old(self)@.leg(from).received,
                    delivered: old(self)@.leg(from).delivered + old(self)@.leg(from).pending,
                    pending: seq![],
                })
                &&& final(self)@.leg(other(from)) == old(self)@.leg(other(from))
                &&& final(self)@.closings == old(self)@.closings
                &&& final(self)@.cancelled == old(self)@.cancelled
                &&& final(self)@.a == old(self)@.a && final(self)@.b == old(self)@.b
            },
            !r ==> final(self)@ == old(self)@,
    {
        proof {
            use_type_invariant(&*self);
        }
        let leg = match from {
            Side::A => self.from_a,
            Side::B => self.from_b,
        };
        if leg.phase != LegPhase::Writing {
            return false;
        }
        let next = Leg {
            phase: LegPhase::Reading,
            received: leg.received,
            delivered: Ghost(leg.delivered@ + leg.pending@),
            pending: Ghost(Seq::empty()),
        };
        proof {
            assert(next.delivered@ =~= next.received@);
        }
        self.set_leg(from, next);
        true
    }

    /// The source of the leg from `from` reached a clean end. If that leg was
    /// reading, it completes: its receive half is released and its sink is
    /// finished (a transport) or released (a socket). Otherwise nothing
    /// changes and no closing is handed out.
    pub fn on_eof(&mut self, from: Side) -> (r: Vec<Closing>)
        ensures
            final(self)@.wf(),
            old(self)@.leg(from).phase == LegPhase::Reading ==> {
                &&& final(self)@ == old(self)@.end_leg(from, LegEnd::Completed)
                &&& r@ == leg_closings(old(self)@.a, old(self)@.b, from, true)
            },
            old(self)@.leg(from).phase != LegPhase::Reading ==> final(self)@ == old(self)@ && r@.len() == 0,
            final(self)@.closings == old(self)@.closings + r@,
    {
        proof {
            use_type_invariant(&*self);
        }
        if self.phase(from) != LegPhase::Reading {
            return Vec::new();
        }
        self.end_leg(from, LegEnd::Completed, false)
    }

    /// An I/O error occurred on the leg from `from`. If that leg runs, it
    /// fails and the shared cancellation is raised: the other leg, if it still
    /// runs, is cancelled, and every half still open is aborted (transport
    /// send halves reset, transport receive halves stopped, socket halves
    /// released). Otherwise nothing changes.
    pub fn on_error(&mut self, from: Side) -> (r: Vec<Closing>)
        ensures
            final(self)@.wf(),
            running(old(self)@.leg(from).phase) ==> {
                &&& final(self)@ == old(self)@.fail_leg(from)
                &&& final(self)@.finished()
                &&& final(self)@.outcome() == RelayOutcome::IoError
            },
            !running(old(self)@.leg(from).phase) ==> final(self)@ == old(self)@ && r@.len() == 0,
            final(self)@.closings == old(self)@.closings + r@,
    {
        proof {
            use_type_invariant(&*self);
        }
        if !matches!(self.phase(from), LegPhase::Reading | LegPhase::Writing) {
            return Vec::new();
        }
        let to = other_side(from);
        let mut r: Vec<Closing> = Vec::new();
        if matches!(self.phase(to), LegPhase::Reading | LegPhase::Writing) {
            r = self.end_leg(to, LegEnd::Cancelled, false);
        }
        let mut tail = self.end_leg(from, LegEnd::Failed, true);
        r.append(&mut tail);
        r
    }

    /// Raises the shared cancellation: every leg still running ends as
    /// cancelled and every half still open is aborted. Once it returns both
    /// legs have ended and no half is open. Raising it again changes nothing
    /// and hands out no closing.
    pub fn cancel(&mut self) -> (r: Vec<Closing>)
        ensures
            final(self)@.wf(),
            final(self)@ == old(self)@.cancel_all(),
            final(self)@.finished(),
            forall|h: Half| !(#[trigger] final(self)@.is_open(h)),
            forall|h: Half| #[trigger] logged(final(self)@.closings, h),
            !old(self)@.finished() ==> final(self)@.outcome() == RelayOutcome::Cancelled,
            old(self)@.finished() ==> final(self)@.outcome() == old(self)@.outcome() && r@.len() == 0,
            old(self)@.cancelled ==> final(self)@ == old(self)@,
            final(self)@.closings == old(self)@.closings + r@,
    {
        proof {
            use_type_invariant(&*self);
        }
        let a_runs = matches!(self.from_a.phase, LegPhase::Reading | LegPhase::Writing);
        let b_runs = matches!(self.from_b.phase, LegPhase::Reading | LegPhase::Writing);
        let mut r: Vec<Closing> = Vec::new();
        if a_runs {
            r = self.end_leg(Side::A, LegEnd::Cancelled, !b_runs);
        }
        if b_runs {
            let mut tail = self.end_leg(Side::B, LegEnd::Cancelled, true);
            r.append(&mut tail);
        }
        if !a_runs && !b_runs {
            proof {
                let w = RelayView { cancelled: true, ..self@ };
                assert forall|h: Half| #[trigger] w.is_open(h) == self@.is_open(h) by {}
                assert(w.wf());
            }
            *self = RelayTask { cancelled: true, ..*self };
        }
        proof {
            use_type_invariant(&*self);
            assert(self@ =~= old(self)@.cancel_all());
            assert(self@.finished());
            assert forall|h: Half| #[trigger] logged(self@.closings, h) by {
                assert(!self@.is_open(h));
            }
        }
        r
    }

    /// Ends a running leg and hands out the closings of its halves; raises
    /// the shared cancellation in the same step when `raise` holds.
    fn end_leg(&mut self, from: Side, end: LegEnd, raise: bool) -> (r: Vec<Closing>)
        requires
            running(old(self)@.leg(from).phase),
            end == LegEnd::Completed ==> old(self)@.leg(from).phase == LegPhase::Reading,
            end == LegEnd::Failed ==> raise,
            raise ==> !running(old(self)@.leg(other(from)).phase),
        ensures
            final(self)@ == (RelayView { cancelled: raise, ..old(self)@.end_leg(from, end) }),
            final(self)@.wf(),
            r@ == leg_closings(old(self)@.a, old(self)@.b, from, end == LegEnd::Completed),
    {
        proof {
            use_type_invariant(&*self);
            lemma_end_leg(self@, from, end, raise);
        }
        let r = closings_of(self.a, self.b, from, end == LegEnd::Completed);
        let closings = Ghost(self.closings@ + r@);
        let leg = match from {
            Side::A => self.from_a,
            Side::B => self.from_b,
        };
        let ended = Leg { phase: LegPhase::Ended(end), ..leg };
        *self = match from {
            Side::A => RelayTask { from_a: ended, closings, cancelled: raise, ..*self },
            Side::B => RelayTask { from_b: ended, closings, cancelled: raise, ..*self },
        };
        r
    }

    /// Replaces the running leg from `from` by another well-formed running
    /// leg, keeping everything else.
    fn set_leg(&mut self, from: Side, leg: Leg)
        requires
            running(old(self)@.leg(from).phase),
            running(leg.phase),
            leg.view().wf(),
        ensures
            final(self)@ == (if from == Side::A {
                RelayView { from_a: leg.view(), ..old(self)@ }
            } else {
                RelayView { from_b: leg.view(), ..old(self)@ }
            }),
            final(self)@.wf(),
    {
        proof {
            use_type_invariant(&*self);
            let v = self@;
            let w = if from == Side::A {
                RelayView { from_a: leg.view(), ..v }
            } else {
                RelayView { from_b: leg.view(), ..v }
            };
            assert forall|h: Half| #[trigger] w.is_open(h) == v.is_open(h) by {}
            assert(w.wf());
        }
        *self = match from {
            Side::A => RelayTask { from_a: leg, ..*self },
            Side::B => RelayTask { from_b: leg, ..*self },
        };
    }
}

} // verus!
