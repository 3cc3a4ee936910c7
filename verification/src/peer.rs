//! One peer connection: the handshake in either role, then the steady
//! state.
//!
//! The connection is a state machine over decoded frames. Whoever owns the
//! socket feeds each received frame in and sends what comes back.
//!
//! ```text
//! Outbound                                   Inbound
//!  -- Hello(our id, our name) -------------->
//!                             <------ Hello(their id, their name) --
//!  -- Auth(challenge, 0) ------------------->
//!                             <------------- Auth(0, response) -----
//!  response == HMAC(psk, challenge)?
//! ```

use crate::protocol::{
    auth_response, compute_auth_response, verify_auth_response, Message, MessageView,
    ProtocolError,
};
use vstd::prelude::*;

verus! {

/// Which side opened the connection.
#[derive(Debug, Clone, Copy, PartialEq, Eq, Structural)]
pub enum Role {
    /// We dialed.
    Outbound,
    /// We accepted.
    Inbound,
}

/// How far a connection has come.
#[derive(Debug, Clone, Copy, PartialEq, Eq, Structural)]
pub enum Phase {
    /// Waiting for the peer's `Hello`.
    AwaitHello,
    /// Waiting for the peer's `Auth`.
    AwaitAuth,
    /// Authenticated; clipboard frames flow.
    Steady,
    /// Failed or closed. Nothing more happens.
    Closed,
}

/// What a connection reports upward.
#[derive(Debug, Clone, PartialEq, Eq)]
pub enum PeerEvent {
    Connected { id: u128, name: String },
    Clipboard { content: String, timestamp: u64 },
    Disconnected { id: u128 },
}

pub ghost enum PeerEventView {
    Connected { id: u128, name: Seq<char> },
    Clipboard { content: Seq<char>, timestamp: u64 },
    Disconnected { id: u128 },
}

impl View for PeerEvent {
    type V = PeerEventView;

    open spec fn view(&self) -> PeerEventView {
        match *self {
            PeerEvent::Connected { id, name } => PeerEventView::Connected { id, name: name@ },
            PeerEvent::Clipboard { content, timestamp } => PeerEventView::Clipboard {
                content: content@,
                timestamp,
            },
            PeerEvent::Disconnected { id } => PeerEventView::Disconnected { id },
        }
    }
}

/// What one handshake frame leads to.
#[derive(Debug, PartialEq, Eq)]
pub enum HandshakeStep {
    /// Send the message, then wait for the next frame.
    Send(Message),
    /// The peer is authenticated. Send `reply` first where there is one.
    Established { reply: Option<Message>, id: u128, name: String },
    /// The connection is to be closed.
    Failed(ProtocolError),
}

pub ghost enum HandshakeStepView {
    Send(MessageView),
    Established { reply: Option<MessageView>, id: u128, name: Seq<char> },
    Failed(ProtocolError),
}

impl View for HandshakeStep {
    type V = HandshakeStepView;

    open spec fn view(&self) -> HandshakeStepView {
        match *self {
            HandshakeStep::Send(m) => HandshakeStepView::Send(m@),
            HandshakeStep::Established { reply, id, name } => HandshakeStepView::Established {
                reply: match reply {
                    Some(m) => Some(m@),
                    None => None,
                },
                id,
                name: name@,
            },
            HandshakeStep::Failed(e) => HandshakeStepView::Failed(e),
        }
    }
}

/// What one frame leads to in the steady state.
#[derive(Debug, PartialEq, Eq)]
pub enum SteadyAction {
    /// Hand the event upward.
    Emit(PeerEvent),
    /// Send the message back.
    Reply(Message),
    /// Nothing to do.
    Ignore,
}

pub ghost enum SteadyActionView {
    Emit(PeerEventView),
    Reply(MessageView),
    Ignore,
}

impl View for SteadyAction {
    type V = SteadyActionView;

    open spec fn view(&self) -> SteadyActionView {
        match *self {
            SteadyAction::Emit(e) => SteadyActionView::Emit(e@),
            SteadyAction::Reply(m) => SteadyActionView::Reply(m@),
            SteadyAction::Ignore => SteadyActionView::Ignore,
        }
    }
}

/// The state of one connection.
#[derive(Debug)]
pub struct PeerConnection {
    role: Role,
    phase: Phase,
    challenge: [u8; 32],
    peer_id: Option<u128>,
    peer_name: Option<String>,
}

/// A connection in mathematical terms. `peer` is the identity that the
/// peer's `Hello` gave, once it has come.
pub ghost struct ConnectionView {
    pub role: Role,
    pub phase: Phase,
    pub challenge: Seq<u8>,
    pub peer: Option<(u128, Seq<char>)>,
}

/// Thirty-two zero bytes: the unused half of an `Auth`.
pub open spec fn zeros() -> Seq<u8> {
    Seq::new(32, |i: int| 0u8)
}

/// The connection failed: closed, with the identity it had.
pub open spec fn closed(c: ConnectionView) -> ConnectionView {
    ConnectionView { phase: Phase::Closed, ..c }
}

/// The handshake as a function: the connection after `frame`, and what
/// to do. `our_id` and `our_name` are what we announce, `psk` is our key.
pub open spec fn handshake_step(
    c: ConnectionView,
    our_id: u128,
    our_name: Seq<char>,
    psk: Seq<char>,
    frame: MessageView,
) -> (ConnectionView, HandshakeStepView) {
    let failed = (closed(c), HandshakeStepView::Failed(ProtocolError::AuthFailed));
    match (c.phase, frame) {
        (Phase::AwaitHello, MessageView::Hello { id, name }) => {
            let next = ConnectionView { phase: Phase::AwaitAuth, peer: Some((id, name)), ..c };
            match c.role {
                Role::Outbound => (
                    next,
                    HandshakeStepView::Send(
                        MessageView::Auth { challenge: c.challenge, response: zeros() },
                    ),
                ),
                Role::Inbound => (
                    next,
                    HandshakeStepView::Send(MessageView::Hello { id: our_id, name: our_name }),
                ),
            }
        },
        (Phase::AwaitAuth, MessageView::Auth { challenge, response }) => {
            match c.peer {
                None => failed,
                Some((id, name)) => match c.role {
                    Role::Outbound => if response == auth_response(psk, c.challenge) {
                        (
                            ConnectionView { phase: Phase::Steady, ..c },
                            HandshakeStepView::Established { reply: None, id, name },
                        )
                    } else {
                        failed
                    },
                    Role::Inbound => (
                        ConnectionView { phase: Phase::Steady, ..c },
                        HandshakeStepView::Established {
                            reply: Some(
                                MessageView::Auth {
                                    challenge: zeros(),
                                    response: auth_response(psk, challenge),
                                },
                            ),
                            id,
                            name,
                        },
                    ),
                },
            }
        },
        _ => failed,
    }
}

/// What a frame leads to once the connection is steady.
pub open spec fn steady_action(frame: MessageView) -> SteadyActionView {
    match frame {
        MessageView::Clipboard { content, timestamp } => SteadyActionView::Emit(
            PeerEventView::Clipboard { content, timestamp },
        ),
        MessageView::Ping => SteadyActionView::Reply(MessageView::Pong),
        MessageView::Pong => SteadyActionView::Ignore,
        MessageView::Hello { .. } => SteadyActionView::Ignore,
        MessageView::Auth { .. } => SteadyActionView::Ignore,
    }
}

pub open spec fn view_event(e: Option<PeerEvent>) -> Option<PeerEventView> {
    match e {
        Some(ev) => Some(ev@),
        None => None,
    }
}

pub open spec fn view_message(m: Option<Message>) -> Option<MessageView> {
    match m {
        Some(msg) => Some(msg@),
        None => None,
    }
}

impl View for PeerConnection {
    type V = ConnectionView;

    closed spec fn view(&self) -> ConnectionView {
        ConnectionView {
            role: self.role,
            phase: self.phase,
            challenge: self.challenge@,
            peer: match (self.peer_id, self.peer_name) {
                (Some(id), Some(name)) => Some((id, name@)),
                _ => None,
            },
        }
    }
}

impl PeerConnection {
    /// A dialed connection that will prove the peer with `challenge`. The
    /// challenge must be fresh: drawn from a cryptographic random source
    /// and used for this connection alone.
    pub fn outbound(challenge: [u8; 32]) -> (c: PeerConnection)
        ensures
            c@ == (ConnectionView {
                role: Role::Outbound,
                phase: Phase::AwaitHello,
                challenge: challenge@,
                peer: None,
            }),
    {
        PeerConnection {
            role: Role::Outbound,
            phase: Phase::AwaitHello,
            challenge,
            peer_id: None,
            peer_name: None,
        }
    }

    /// An accepted connection.
    pub fn inbound() -> (c: PeerConnection)
        ensures
            c@ == (ConnectionView {
                role: Role::Inbound,
                phase: Phase::AwaitHello,
                challenge: zeros(),
                peer: None,
            }),
    {
        let challenge: [u8; 32] = [0u8; 32];
        assert(challenge@ =~= zeros());
        PeerConnection {
            role: Role::Inbound,
            phase: Phase::AwaitHello,
            challenge,
            peer_id: None,
            peer_name: None,
        }
    }

    pub fn role(&self) -> (r: Role)
        ensures
            r == self@.role,
    {
        self.role
    }

    pub fn phase(&self) -> (p: Phase)
        ensures
            p == self@.phase,
    {
        self.phase
    }

    /// The peer's identifier, once the handshake has succeeded.
    pub fn peer_id(&self) -> (id: Option<u128>)
        ensures
            id == match (self@.phase, self@.peer) {
                (Phase::Steady, Some(p)) => Some(p.0),
                _ => None,
            },
    {
        match (self.phase, self.peer_id, &self.peer_name) {
            (Phase::Steady, Some(id), Some(_)) => Some(id),
            _ => None,
        }
    }

    /// What the dialer sends before anything is received: its `Hello`. The
    /// acceptor sends nothing first.
    pub fn opening(&self, our_id: u128, our_name: &str) -> (m: Option<Message>)
        ensures
            view_message(m) == match self@.role {
                Role::Outbound => Some(MessageView::Hello { id: our_id, name: our_name@ }),
                Role::Inbound => None,
            },
    {
        match self.role {
            Role::Outbound => Some(Message::Hello { id: our_id, name: our_name.to_string() }),
            Role::Inbound => None,
        }
    }

    /// One received frame of the handshake.
    pub fn handshake(&mut self, our_id: u128, our_name: &str, psk: &str, frame: Message) -> (step:
        HandshakeStep)
        ensures
            (final(self)@, step@) == handshake_step(old(self)@, our_id, our_name@, psk@, frame@),
    {
        let zero: [u8; 32] = [0u8; 32];
        assert(zero@ =~= zeros());
        match (self.phase, frame) {
            (Phase::AwaitHello, Message::Hello { id, name }) => {
                self.phase = Phase::AwaitAuth;
                self.peer_id = Some(id);
                self.peer_name = Some(name);
                match self.role {
                    Role::Outbound => HandshakeStep::Send(
                        Message::Auth { challenge: self.challenge, response: zero },
                    ),
                    Role::Inbound => HandshakeStep::Send(
                        Message::Hello { id: our_id, name: our_name.to_string() },
                    ),
                }
            },
            (Phase::AwaitAuth, Message::Auth { challenge, response }) => {
                let id = match self.peer_id {
                    Some(id) => id,
                    None => {
                        self.phase = Phase::Closed;
                        return HandshakeStep::Failed(ProtocolError::AuthFailed);
                    },
                };
                let name = match &self.peer_name {
                    Some(name) => name.clone(),
                    None => {
                        self.phase = Phase::Closed;
                        return HandshakeStep::Failed(ProtocolError::AuthFailed);
                    },
                };
                match self.role {
                    Role::Outbound => {
                        if verify_auth_response(psk, &self.challenge, &response) {
                            self.phase = Phase::Steady;
                            HandshakeStep::Established { reply: None, id, name }
                        } else {
                            self.phase = Phase::Closed;
                            HandshakeStep::Failed(ProtocolError::AuthFailed)
                        }
                    },
                    Role::Inbound => {
                        let answer = compute_auth_response(psk, &challenge);
                        self.phase = Phase::Steady;
                        HandshakeStep::Established {
                            reply: Some(Message::Auth { challenge: zero, response: answer }),
                            id,
                            name,
                        }
                    },
                }
            },
            _ => {
                self.phase = Phase::Closed;
                HandshakeStep::Failed(ProtocolError::AuthFailed)
            },
        }
    }

    /// The event that announces the peer, once the connection is steady.
    pub fn connected_event(&self) -> (e: Option<PeerEvent>)
        ensures
            view_event(e) == match (self@.phase, self@.peer) {
                (Phase::Steady, Some(p)) => Some(PeerEventView::Connected { id: p.0, name: p.1 }),
                _ => None,
            },
    {
        match (self.phase, self.peer_id, &self.peer_name) {
            (Phase::Steady, Some(id), Some(name)) => Some(
                PeerEvent::Connected { id, name: name.clone() },
            ),
            _ => None,
        }
    }

    /// One received frame in the steady state. A clipboard frame goes
    /// upward, a `Ping` is answered, everything else is let pass.
    pub fn receive(frame: Message) -> (action: SteadyAction)
        ensures
            action@ == steady_action(frame@),
    {
        match frame {
            Message::Clipboard { content, timestamp } => SteadyAction::Emit(
                PeerEvent::Clipboard { content, timestamp },
            ),
            Message::Ping => SteadyAction::Reply(Message::Pong),
            Message::Pong => SteadyAction::Ignore,
            Message::Hello { id, name } => SteadyAction::Ignore,
            Message::Auth { challenge, response } => SteadyAction::Ignore,
        }
    }

    /// The frame that carries a local clipboard edit to the peer.
    pub fn forward(content: String, timestamp: u64) -> (m: Message)
        ensures
            m@ == (MessageView::Clipboard { content: content@, timestamp }),
    {
        Message::Clipboard { content, timestamp }
    }

    /// The transport failed, timed out or ended, or a frame did not
    /// decode: the connection closes. A connection that was steady reports
    /// the peer as gone; one that never got there reports nothing.
    pub fn close(&mut self) -> (e: Option<PeerEvent>)
        ensures
            final(self)@ == closed(old(self)@),
            view_event(e) == match (old(self)@.phase, old(self)@.peer) {
                (Phase::Steady, Some(p)) => Some(PeerEventView::Disconnected { id: p.0 }),
                _ => None,
            },
    {
        let id = self.peer_id();
        self.phase = Phase::Closed;
        match id {
            Some(id) => Some(PeerEvent::Disconnected { id }),
            None => None,
        }
    }
}

/// What the liveness probe asks for.
#[derive(Debug, Clone, Copy, PartialEq, Eq, Structural)]
pub enum LivenessAction {
    /// Nothing to do yet.
    Wait,
    /// Send a `Ping`.
    SendPing,
    /// The peer did not answer in time: the connection has failed.
    Fail,
}

/// The liveness probe of a steady connection. Times are in milliseconds.
/// When no frame has come for `interval`, a `Ping` goes out; when no frame
/// has come for another `interval` after that, the connection has failed.
#[derive(Debug, Clone, Copy, PartialEq, Eq, Structural)]
pub struct Liveness {
    /// The silence that is tolerated.
    pub interval: u64,
    /// When the last frame came.
    pub last_frame: u64,
    /// When the `Ping` went out that is still unanswered.
    pub ping_sent: Option<u64>,
}

/// The time from `then` to `now`; none if the clock went back.
pub open spec fn elapsed(then: u64, now: u64) -> int {
    if now >= then {
        now - then
    } else {
        0
    }
}

/// What the probe asks for at `now`.
pub open spec fn liveness_action(l: Liveness, now: u64) -> LivenessAction {
    match l.ping_sent {
        Some(sent) => if elapsed(sent, now) >= l.interval {
            LivenessAction::Fail
        } else {
            LivenessAction::Wait
        },
        None => if elapsed(l.last_frame, now) >= l.interval {
            LivenessAction::SendPing
        } else {
            LivenessAction::Wait
        },
    }
}

impl Liveness {
    /// A probe for a connection that became steady at `now`.
    pub fn new(now: u64, interval: u64) -> (l: Liveness)
        ensures
            l == (Liveness { interval, last_frame: now, ping_sent: None }),
    {
        Liveness { interval, last_frame: now, ping_sent: None }
    }

    /// A frame came at `now`, whatever it was: the peer is alive.
    pub fn on_frame(&mut self, now: u64)
        ensures
            *final(self) == (Liveness { last_frame: now, ping_sent: None, ..*old(self) }),
    {
        self.last_frame = now;
        self.ping_sent = None;
    }

    /// The clock reached `now`.
    pub fn on_tick(&mut self, now: u64) -> (action: LivenessAction)
        ensures
            action == liveness_action(*old(self), now),
            *final(self) == if action == LivenessAction::SendPing {
                Liveness { ping_sent: Some(now), ..*old(self) }
            } else {
                *old(self)
            },
    {
        match self.ping_sent {
            Some(sent) => {
                if now.saturating_sub(sent) >= self.interval {
                    LivenessAction::Fail
                } else {
                    LivenessAction::Wait
                }
            },
            None => {
                if now.saturating_sub(self.last_frame) >= self.interval {
                    self.ping_sent = Some(now);
                    LivenessAction::SendPing
                } else {
                    LivenessAction::Wait
                }
            },
        }
    }
}

/// Liveness is bounded: a peer that stays silent from `start` on is given
/// up at the second tick that comes a full interval after the one before,
/// and a peer whose frame came less than an interval ago is never given up.
pub proof fn lemma_silence_fails_in_two_intervals(l: Liveness, t1: u64, t2: u64)
    requires
        l.ping_sent is None,
        l.interval > 0,
        elapsed(l.last_frame, t1) >= l.interval,
        elapsed(t1, t2) >= l.interval,
    ensures
        liveness_action(l, t1) == LivenessAction::SendPing,
        liveness_action(Liveness { ping_sent: Some(t1), ..l }, t2) == LivenessAction::Fail,
        forall|now: u64|
            elapsed(l.last_frame, now) < l.interval ==> liveness_action(l, now)
                == LivenessAction::Wait,
{
}

/// Two instances that hold the same key get through the handshake. The
/// dialer `a` and the acceptor `b` exchange the four frames in order; then
/// both are steady, each has learned the other's identifier and name, and
/// the acceptor's answer is the HMAC of the dialer's challenge.
pub proof fn lemma_shared_key_completes(
    a_id: u128,
    a_name: Seq<char>,
    b_id: u128,
    b_name: Seq<char>,
    psk: Seq<char>,
    challenge: Seq<u8>,
)
    ensures
        ({
            let dialer = ConnectionView {
                role: Role::Outbound,
                phase: Phase::AwaitHello,
                challenge,
                peer: None,
            };
            let acceptor = ConnectionView {
                role: Role::Inbound,
                phase: Phase::AwaitHello,
                challenge: zeros(),
                peer: None,
            };
            let hello_a = MessageView::Hello { id: a_id, name: a_name };
            let (acceptor1, first) = handshake_step(acceptor, b_id, b_name, psk, hello_a);
            let hello_b = MessageView::Hello { id: b_id, name: b_name };
            let (dialer1, second) = handshake_step(dialer, a_id, a_name, psk, hello_b);
            let probe = MessageView::Auth { challenge, response: zeros() };
            let (acceptor2, third) = handshake_step(acceptor1, b_id, b_name, psk, probe);
            let answer = MessageView::Auth {
                challenge: zeros(),
                response: auth_response(psk, challenge),
            };
            let (dialer2, fourth) = handshake_step(dialer1, a_id, a_name, psk, answer);
            &&& first == HandshakeStepView::Send(hello_b)
            &&& second == HandshakeStepView::Send(probe)
            &&& third == HandshakeStepView::Established {
                reply: Some(answer),
                id: a_id,
                name: a_name,
            }
            &&& fourth == HandshakeStepView::Established { reply: None, id: b_id, name: b_name }
            &&& dialer2.phase == Phase::Steady
            &&& acceptor2.phase == Phase::Steady
            &&& dialer2.peer == Some((b_id, b_name))
            &&& acceptor2.peer == Some((a_id, a_name))
        }),
{
}

/// A dialer gets to the steady state on one frame only, an `Auth` whose
/// response is the HMAC of the dialer's own challenge under the dialer's
/// own key. Every other frame closes the connection with `AuthFailed`.
pub proof fn lemma_outbound_accepts_only_proof(
    c: ConnectionView,
    our_id: u128,
    our_name: Seq<char>,
    psk: Seq<char>,
    frame: MessageView,
)
    requires
        c.role == Role::Outbound,
    ensures
        ({
            let (next, step) = handshake_step(c, our_id, our_name, psk, frame);
            &&& next.phase == Phase::Steady <==> step is Established
            &&& step is Established ==> c.phase == Phase::AwaitAuth && frame is Auth
                && frame->response == auth_response(psk, c.challenge)
            &&& !(step is Established) && !(step is Send) ==> next.phase == Phase::Closed && step
                == HandshakeStepView::Failed(ProtocolError::AuthFailed)
        }),
{
}

/// Two keys whose responses to a challenge differ do not pass for one
/// another: the dialer holding `psk` refuses the response computed under
/// `other`.
pub proof fn lemma_wrong_key_refused(
    c: ConnectionView,
    our_id: u128,
    our_name: Seq<char>,
    psk: Seq<char>,
    other: Seq<char>,
    any: Seq<u8>,
)
    requires
        c.role == Role::Outbound,
        c.phase == Phase::AwaitAuth,
        auth_response(other, c.challenge) != auth_response(psk, c.challenge),
    ensures
        handshake_step(
            c,
            our_id,
            our_name,
            psk,
            MessageView::Auth { challenge: any, response: auth_response(other, c.challenge) },
        ).1 == HandshakeStepView::Failed(ProtocolError::AuthFailed),
{
}

} // verus!
