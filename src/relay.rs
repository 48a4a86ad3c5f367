use vstd::prelude::*;

verus! {

/// Where one directional pump of a WebSocket session stands.
#[derive(PartialEq, Eq, Structural, Clone, Copy, Debug)]
pub enum PumpState {
    /// Waiting for the next frame from the source socket.
    Receiving,
    /// Holding one frame, to be written to the sink socket.
    Forwarding,
    /// Exited; nothing more is read or written.
    Stopped,
}

/// What the I/O around a pump reports.
#[derive(PartialEq, Eq, Structural, Clone, Copy, Debug)]
pub enum PumpEvent {
    /// A frame was read from the source socket.
    Received,
    /// The source stream ended, or reading from it failed.
    SourceClosed,
    /// The held frame was written to the sink socket.
    Forwarded,
    /// Writing the held frame failed.
    ForwardFailed,
    /// The paired pump has exited.
    PeerStopped,
}

/// What the I/O around a pump does next.
#[derive(PartialEq, Eq, Structural, Clone, Copy, Debug)]
pub enum PumpAction {
    /// Write the frame just received to the sink socket.
    ForwardFrame,
    /// Read the next frame from the source socket.
    ReadNext,
    /// Signal the paired pump to stop, close the sink, and exit.
    Shutdown,
    /// Do nothing: the pump has already exited.
    Idle,
}

/// One transition of a pump.
pub open spec fn pump_next(s: PumpState, e: PumpEvent) -> (PumpState, PumpAction) {
    match (s, e) {
        (PumpState::Stopped, _) => (PumpState::Stopped, PumpAction::Idle),
        (PumpState::Receiving, PumpEvent::Received) => (PumpState::Forwarding, PumpAction::ForwardFrame),
        (PumpState::Forwarding, PumpEvent::Forwarded) => (PumpState::Receiving, PumpAction::ReadNext),
        _ => (PumpState::Stopped, PumpAction::Shutdown),
    }
}

/// The actions of a pump that starts in `s` and sees `events` in turn.
pub open spec fn pump_run(s: PumpState, events: Seq<PumpEvent>) -> Seq<PumpAction>
    decreases events.len(),
{
    if events.len() == 0 {
        Seq::empty()
    } else {
        let (t, a) = pump_next(s, events[0]);
        seq![a] + pump_run(t, events.subrange(1, events.len() as int))
    }
}

/// The state of a pump that starts in `s` and sees `events` in turn.
pub open spec fn pump_final(s: PumpState, events: Seq<PumpEvent>) -> PumpState
    decreases events.len(),
{
    if events.len() == 0 {
        s
    } else {
        pump_final(pump_next(s, events[0]).0, events.subrange(1, events.len() as int))
    }
}

/// One transition, as executable code.
pub fn pump_step(s: PumpState, e: PumpEvent) -> (r: (PumpState, PumpAction))
    ensures
        r == pump_next(s, e),
{
    match (s, e) {
        (PumpState::Stopped, _) => (PumpState::Stopped, PumpAction::Idle),
        (PumpState::Receiving, PumpEvent::Received) => (PumpState::Forwarding, PumpAction::ForwardFrame),
        (PumpState::Forwarding, PumpEvent::Forwarded) => (PumpState::Receiving, PumpAction::ReadNext),
        _ => (PumpState::Stopped, PumpAction::Shutdown),
    }
}

proof fn lemma_run_len(s: PumpState, events: Seq<PumpEvent>)
    ensures
        pump_run(s, events).len() == events.len(),
    decreases events.len(),
{
    if events.len() > 0 {
        lemma_run_len(pump_next(s, events[0]).0, events.subrange(1, events.len() as int));
    }
}

/// A pump that has exited stays exited: whatever it sees next, it forwards
/// no frame, reads nothing and shuts down no second time.
pub proof fn lemma_stopped_pump_stays_idle(events: Seq<PumpEvent>)
    ensures
        pump_final(PumpState::Stopped, events) == PumpState::Stopped,
        forall|i: int| 0 <= i < events.len() ==> pump_run(PumpState::Stopped, events)[i] == PumpAction::Idle,
        pump_run(PumpState::Stopped, events).len() == events.len(),
    decreases events.len(),
{
    if events.len() > 0 {
        let rest = events.subrange(1, events.len() as int);
        lemma_stopped_pump_stays_idle(rest);
        let acts = pump_run(PumpState::Stopped, events);
        assert forall|i: int| 0 <= i < events.len() implies acts[i] == PumpAction::Idle by {
            if i > 0 {
                assert(acts[i] == pump_run(PumpState::Stopped, rest)[i - 1]);
            }
        }
    }
}

/// A pump that is running exits on the very event that reports a closed
/// source, a failed write or a stopped peer, and shuts down exactly then.
pub proof fn lemma_pump_stops_at_once(s: PumpState, e: PumpEvent)
    requires
        s != PumpState::Stopped,
        e == PumpEvent::SourceClosed || e == PumpEvent::ForwardFailed || e == PumpEvent::PeerStopped,
    ensures
        pump_next(s, e) == (PumpState::Stopped, PumpAction::Shutdown),
{
}

/// A pump forwards a frame only right after it received one, so frames leave
/// in the order they arrived, one write per read.
pub proof fn lemma_forward_follows_receive(s: PumpState, events: Seq<PumpEvent>, i: int)
    requires
        0 <= i < events.len(),
        pump_run(s, events)[i] == PumpAction::ForwardFrame,
    ensures
        events[i] == PumpEvent::Received,
    decreases events.len(),
{
    if i > 0 {
        let (t, a) = pump_next(s, events[0]);
        let rest = events.subrange(1, events.len() as int);
        lemma_run_len(t, rest);
        assert(pump_run(s, events)[i] == pump_run(t, rest)[i - 1]);
        lemma_forward_follows_receive(t, rest, i - 1);
    }
}

/// A pump shuts down at most once over any run.
pub proof fn lemma_shutdown_at_most_once(s: PumpState, events: Seq<PumpEvent>, i: int, j: int)
    requires
        0 <= i < j < events.len(),
        pump_run(s, events)[i] == PumpAction::Shutdown,
    ensures
        pump_run(s, events)[j] != PumpAction::Shutdown,
    decreases events.len(),
{
    let (t, a) = pump_next(s, events[0]);
    let rest = events.subrange(1, events.len() as int);
    lemma_run_len(t, rest);
    assert(pump_run(s, events)[j] == pump_run(t, rest)[j - 1]);
    if i == 0 {
        lemma_stopped_pump_stays_idle(rest);
    } else {
        assert(pump_run(s, events)[i] == pump_run(t, rest)[i - 1]);
        lemma_shutdown_at_most_once(t, rest, i - 1, j - 1);
    }
}

/// Which pump of a session an event concerns.
#[derive(PartialEq, Eq, Structural, Clone, Copy, Debug)]
pub enum Direction {
    ClientToUpstream,
    UpstreamToClient,
}

/// The two pumps of one WebSocket session. Each pump's exit stops the other
/// on the same step, so the two are either both running or both stopped.
pub struct RelaySession {
    client_to_upstream: PumpState,
    upstream_to_client: PumpState,
}

/// One step of a session, seen from the pump that got the event: the new
/// states of it and of its peer, and the actions of it and of its peer.
pub open spec fn paired_next(own: PumpState, peer: PumpState, e: PumpEvent) -> (
    PumpState,
    PumpState,
    PumpAction,
    PumpAction,
) {
    let (own2, own_a) = pump_next(own, e);
    if own_a == PumpAction::Shutdown {
        let (peer2, peer_a) = pump_next(peer, PumpEvent::PeerStopped);
        (own2, peer2, own_a, peer_a)
    } else {
        (own2, peer, own_a, PumpAction::Idle)
    }
}

impl View for RelaySession {
    type V = (PumpState, PumpState);

    /// The client-to-upstream pump, then the upstream-to-client pump.
    closed spec fn view(&self) -> (PumpState, PumpState) {
        (self.client_to_upstream, self.upstream_to_client)
    }
}

impl RelaySession {
    /// Both pumps run, or both have stopped.
    pub open spec fn wf(&self) -> bool {
        (self@.0 == PumpState::Stopped) == (self@.1 == PumpState::Stopped)
    }

    /// A session whose two pumps wait for their first frame.
    pub fn new() -> (r: RelaySession)
        ensures
            r@ == (PumpState::Receiving, PumpState::Receiving),
            r.wf(),
    {
        RelaySession { client_to_upstream: PumpState::Receiving, upstream_to_client: PumpState::Receiving }
    }

    /// Feeds `e` to the pump of direction `d`. Returns that pump's action and
    /// its peer's: when the pump shuts down, the peer is told to stop at once.
    pub fn on_event(&mut self, d: Direction, e: PumpEvent) -> (r: (PumpAction, PumpAction))
        requires
            old(self).wf(),
        ensures
            final(self).wf(),
            d == Direction::ClientToUpstream ==> ({
                let n = paired_next(old(self)@.0, old(self)@.1, e);
                &&& final(self)@ == (n.0, n.1)
                &&& r == (n.2, n.3)
            }),
            d == Direction::UpstreamToClient ==> ({
                let n = paired_next(old(self)@.1, old(self)@.0, e);
                &&& final(self)@ == (n.1, n.0)
                &&& r == (n.2, n.3)
            }),
            (e == PumpEvent::SourceClosed || e == PumpEvent::ForwardFailed || e == PumpEvent::PeerStopped)
                ==> final(self)@ == (PumpState::Stopped, PumpState::Stopped),
    {
        let (own, peer) = match d {
            Direction::ClientToUpstream => (self.client_to_upstream, self.upstream_to_client),
            Direction::UpstreamToClient => (self.upstream_to_client, self.client_to_upstream),
        };
        let (own2, own_a) = pump_step(own, e);
        let (peer2, peer_a) = match own_a {
            PumpAction::Shutdown => pump_step(peer, PumpEvent::PeerStopped),
            _ => (peer, PumpAction::Idle),
        };
        match d {
            Direction::ClientToUpstream => {
                self.client_to_upstream = own2;
                self.upstream_to_client = peer2;
            },
            Direction::UpstreamToClient => {
                self.upstream_to_client = own2;
                self.client_to_upstream = peer2;
            },
        }
        (own_a, peer_a)
    }

    /// Whether both pumps have exited.
    pub fn is_closed(&self) -> (r: bool)
        requires
            self.wf(),
        ensures
            r == (self@.0 == PumpState::Stopped && self@.1 == PumpState::Stopped),
    {
        match self.client_to_upstream {
            PumpState::Stopped => true,
            _ => false,
        }
    }

    /// The state of the pump of direction `d`.
    pub fn state(&self, d: Direction) -> (r: PumpState)
        ensures
            r == (if d == Direction::ClientToUpstream { self@.0 } else { self@.1 }),
    {
        match d {
            Direction::ClientToUpstream => self.client_to_upstream,
            Direction::UpstreamToClient => self.upstream_to_client,
        }
    }
}

/// What follows the upstream WebSocket handshake.
#[derive(PartialEq, Eq, Structural, Clone, Copy, Debug)]
pub enum HandshakeAction {
    /// Both sockets are open: start the two pumps.
    StartRelay,
    /// The upstream could not be reached: close the client socket now.
    CloseClient,
}

/// Relays only when the upstream connection was made; otherwise the
/// client-facing socket is closed rather than left open.
pub fn handshake_action(upstream_connected: bool) -> (r: HandshakeAction)
    ensures
        r == (if upstream_connected { HandshakeAction::StartRelay } else { HandshakeAction::CloseClient }),
{
    if upstream_connected {
        HandshakeAction::StartRelay
    } else {
        HandshakeAction::CloseClient
    }
}

} // verus!
