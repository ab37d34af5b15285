//! The reconnect-forever streaming session.
//!
//! A session opens its transport, sends its authentication payload, waits
//! for the acknowledgement, sends its subscription or listen request and then
//! streams frames. Any transport error or close sends it back to
//! `Disconnected`; after a fixed delay it connects again. The decisions are a
//! function from state and event to next state and action: the caller
//! performs the action and reports what came of it as the next event.
use vstd::prelude::*;

verus! {

/// The delay before a session reconnects, in milliseconds.
pub const RECONNECT_DELAY_MILLIS: u64 = 5000;

/// Where a session stands.
#[derive(Debug, Clone, Copy, PartialEq, Eq, Structural)]
pub enum SessionState {
    Disconnected,
    Connecting,
    Authenticating,
    Subscribing,
    Streaming,
}

/// What an inbound frame means to the session.
#[derive(Debug, Clone, Copy, PartialEq, Eq, Structural)]
pub enum FrameKind {
    /// The server acknowledged the authentication payload.
    AuthAck,
    /// The server refused the authentication payload.
    AuthRejected,
    /// Any other frame: data, a subscription acknowledgement, a status.
    Data,
}

/// What happened since the last action.
#[derive(Debug, Clone, Copy, PartialEq, Eq, Structural)]
pub enum SessionEvent {
    ConnectOk,
    ConnectFailed,
    Frame(FrameKind),
    /// A read error, a close, or a control frame the session cannot handle.
    TransportError,
    DelayElapsed,
}

/// What the caller is to do next.
#[derive(Debug, Clone, Copy, PartialEq, Eq, Structural)]
pub enum SessionAction {
    OpenTransport,
    SendAuth,
    SendSubscribe,
    /// Hand the frame to the feed's handler.
    Dispatch,
    /// Drop the transport and wait this many milliseconds.
    Wait { millis: u64 },
    Nothing,
}

/// The session's transition: next state and action for state `s` and event `e`.
pub open spec fn transition(s: SessionState, e: SessionEvent, delay: u64) -> (SessionState, SessionAction) {
    match (s, e) {
        (SessionState::Disconnected, SessionEvent::DelayElapsed) => (SessionState::Connecting, SessionAction::OpenTransport),
        (SessionState::Connecting, SessionEvent::ConnectOk) => (SessionState::Authenticating, SessionAction::SendAuth),
        (SessionState::Connecting, SessionEvent::ConnectFailed) => (SessionState::Disconnected, SessionAction::Wait { millis: delay }),
        (SessionState::Authenticating, SessionEvent::Frame(FrameKind::AuthAck)) => (SessionState::Subscribing, SessionAction::SendSubscribe),
        (SessionState::Authenticating, SessionEvent::Frame(_)) => (SessionState::Authenticating, SessionAction::Nothing),
        (SessionState::Subscribing, SessionEvent::Frame(_)) => (SessionState::Streaming, SessionAction::Dispatch),
        (SessionState::Streaming, SessionEvent::Frame(_)) => (SessionState::Streaming, SessionAction::Dispatch),
        (SessionState::Authenticating, SessionEvent::TransportError) => (SessionState::Disconnected, SessionAction::Wait { millis: delay }),
        (SessionState::Subscribing, SessionEvent::TransportError) => (SessionState::Disconnected, SessionAction::Wait { millis: delay }),
        (SessionState::Streaming, SessionEvent::TransportError) => (SessionState::Disconnected, SessionAction::Wait { millis: delay }),
        _ => (s, SessionAction::Nothing),
    }
}

/// A streaming session's decisions: its state, its reconnect delay and how
/// many times it has dropped its transport.
pub struct ProtocolSession {
    pub state: SessionState,
    pub delay_millis: u64,
    pub reconnects: u64,
}

impl ProtocolSession {
    /// A session about to open its transport, with the given reconnect delay.
    /// The first action is `OpenTransport`.
    pub fn new(delay_millis: u64) -> (r: (ProtocolSession, SessionAction))
        ensures
            r.0.state == SessionState::Connecting,
            r.0.delay_millis == delay_millis,
            r.0.reconnects == 0,
            r.1 == SessionAction::OpenTransport,
    {
        (ProtocolSession { state: SessionState::Connecting, delay_millis, reconnects: 0 }, SessionAction::OpenTransport)
    }

    /// Takes one event: the state moves by `transition` and the action to
    /// perform comes back. Each `Wait` counts one reconnect (saturating).
    pub fn step(&mut self, e: SessionEvent) -> (r: SessionAction)
        ensures
            (final(self).state, r) == transition(old(self).state, e, old(self).delay_millis),
            final(self).delay_millis == old(self).delay_millis,
            final(self).reconnects == (if r is Wait && old(self).reconnects < u64::MAX {
                old(self).reconnects + 1
            } else {
                old(self).reconnects as int
            }),
    {
        let delay = self.delay_millis;
        let (next, action) = match (self.state, e) {
            (SessionState::Disconnected, SessionEvent::DelayElapsed) => (SessionState::Connecting, SessionAction::OpenTransport),
            (SessionState::Connecting, SessionEvent::ConnectOk) => (SessionState::Authenticating, SessionAction::SendAuth),
            (SessionState::Connecting, SessionEvent::ConnectFailed) => (SessionState::Disconnected, SessionAction::Wait { millis: delay }),
            (SessionState::Authenticating, SessionEvent::Frame(FrameKind::AuthAck)) => (SessionState::Subscribing, SessionAction::SendSubscribe),
            (SessionState::Authenticating, SessionEvent::Frame(_)) => (SessionState::Authenticating, SessionAction::Nothing),
            (SessionState::Subscribing, SessionEvent::Frame(_)) => (SessionState::Streaming, SessionAction::Dispatch),
            (SessionState::Streaming, SessionEvent::Frame(_)) => (SessionState::Streaming, SessionAction::Dispatch),
            (SessionState::Authenticating, SessionEvent::TransportError) => (SessionState::Disconnected, SessionAction::Wait { millis: delay }),
            (SessionState::Subscribing, SessionEvent::TransportError) => (SessionState::Disconnected, SessionAction::Wait { millis: delay }),
            (SessionState::Streaming, SessionEvent::TransportError) => (SessionState::Disconnected, SessionAction::Wait { millis: delay }),
            (s, _) => (s, SessionAction::Nothing),
        };
        self.state = next;
        if let SessionAction::Wait { .. } = action {
            if self.reconnects < u64::MAX {
                self.reconnects = self.reconnects + 1;
            }
        }
        action
    }
}

/// What a transport that fails its first `failures` connection attempts and
/// then works answers to `a`: the event, and the failures still to come.
pub open spec fn flaky_reply(a: SessionAction, failures: nat) -> (SessionEvent, nat) {
    match a {
        SessionAction::OpenTransport => if failures > 0 {
            (SessionEvent::ConnectFailed, (failures - 1) as nat)
        } else {
            (SessionEvent::ConnectOk, 0nat)
        },
        SessionAction::SendAuth => (SessionEvent::Frame(FrameKind::AuthAck), failures),
        SessionAction::SendSubscribe => (SessionEvent::Frame(FrameKind::Data), failures),
        SessionAction::Wait { millis } => (SessionEvent::DelayElapsed, failures),
        _ => (SessionEvent::Frame(FrameKind::Data), failures),
    }
}

/// A session in state `s` that has just been told to do `a`, run against
/// that transport for `steps` events: the state reached and the number of
/// reconnect delays waited on the way.
pub open spec fn run_flaky(s: SessionState, a: SessionAction, failures: nat, delay: u64, steps: nat) -> (
    SessionState,
    nat,
)
    decreases steps,
{
    if steps == 0 {
        (s, 0nat)
    } else {
        let (e, left) = flaky_reply(a, failures);
        let (s2, a2) = transition(s, e, delay);
        let (fin, waits) = run_flaky(s2, a2, left, delay, (steps - 1) as nat);
        (fin, waits + if a is Wait { 1nat } else { 0nat })
    }
}

/// Reconnect liveness: a fresh session against a transport that fails `n`
/// connection attempts and then works is streaming after `2 * n + 3`
/// events, having waited exactly `n` reconnect delays, with no other help.
pub proof fn lemma_reconnect_liveness(n: nat, delay: u64)
    ensures
        run_flaky(SessionState::Connecting, SessionAction::OpenTransport, n, delay, 2 * n + 3)
            == (SessionState::Streaming, n),
    decreases n,
{
    if n == 0 {
        reveal_with_fuel(run_flaky, 4);
    } else {
        lemma_reconnect_liveness((n - 1) as nat, delay);
        let steps: nat = 2 * n + 3;
        assert(run_flaky(SessionState::Disconnected, SessionAction::Wait { millis: delay }, (n - 1) as nat, delay, (steps - 1) as nat)
            == (SessionState::Streaming, n)) by {
            reveal_with_fuel(run_flaky, 2);
        }
        reveal_with_fuel(run_flaky, 2);
    }
}

} // verus!
