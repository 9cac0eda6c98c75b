//! The session state machine: lifecycle, frame dispatch and the liveness
//! timer policy.

use vstd::prelude::*;

use crate::frame::{Action, ActionV, Event, EventV};

verus! {

/// Period of the recurring liveness timer tick, in time-units.
pub const HEARTBEAT_INTERVAL: u64 = 5;

/// How long the peer may stay quiet (no ping, no pong) after the last
/// liveness evidence before the session terminates unilaterally, in
/// time-units.
pub const CLIENT_TIMEOUT: u64 = 10;

/// Mathematical view of a [`Session`].
pub ghost struct SessionV {
    /// Client-supplied label, immutable for the session's life.
    pub identifier: Seq<char>,
    /// Time of the most recent liveness evidence (inbound ping or pong), or
    /// the creation time if none has arrived yet.
    pub last_seen: u64,
    /// Whether the session is still `Active`; once `false` (`Terminated`)
    /// it never becomes `true` again.
    pub active: bool,
}

/// The frame-dispatch transition: the session and action that result from
/// processing one inbound event at time `now`.
///
/// A terminated session discards every event silently. An active session
/// replies to a ping with a pong carrying the same payload, records pings
/// and pongs in `last_seen`, echoes text and binary payloads unchanged,
/// acknowledges a close request with the peer's reason and terminates, and
/// terminates with no reply on a malformed or failed frame.
pub open spec fn step(s: SessionV, ev: EventV, now: u64) -> (SessionV, ActionV) {
    if !s.active {
        (s, ActionV::Nothing)
    } else {
        match ev {
            EventV::Ping(p) => (
                SessionV { identifier: s.identifier, last_seen: now, active: true },
                ActionV::Pong(p),
            ),
            EventV::Pong(_) => (
                SessionV { identifier: s.identifier, last_seen: now, active: true },
                ActionV::Nothing,
            ),
            EventV::Text(t) => (s, ActionV::EchoText(t)),
            EventV::Binary(b) => (s, ActionV::EchoBinary(b)),
            EventV::Close(r) => (
                SessionV { identifier: s.identifier, last_seen: s.last_seen, active: false },
                ActionV::CloseWith(r),
            ),
            EventV::Error => (
                SessionV { identifier: s.identifier, last_seen: s.last_seen, active: false },
                ActionV::Shutdown,
            ),
        }
    }
}

/// Whether an active session has timed out at time `now`: strictly more
/// than [`CLIENT_TIMEOUT`] time-units have passed since `last_seen`.
pub open spec fn timed_out(s: SessionV, now: u64) -> bool {
    now - s.last_seen > CLIENT_TIMEOUT
}

/// The liveness-timer transition: the session and action that result from
/// one timer tick at time `now`.
///
/// A terminated session ignores the tick. An active session terminates —
/// and sends no probe — if the peer has been quiet past the timeout
/// threshold; otherwise it sends a liveness probe with an empty payload,
/// leaving `last_seen` untouched (only a response from the peer updates it).
pub open spec fn tick_step(s: SessionV, now: u64) -> (SessionV, ActionV) {
    if !s.active {
        (s, ActionV::Nothing)
    } else if timed_out(s, now) {
        (
            SessionV { identifier: s.identifier, last_seen: s.last_seen, active: false },
            ActionV::Shutdown,
        )
    } else {
        (s, ActionV::Ping(Seq::empty()))
    }
}

/// The termination transition: the session after terminating, and whether
/// this invocation is the one that closes the transport.
///
/// Termination is idempotent: only the invocation that finds the session
/// still active reports `true`, so the transport is closed exactly once.
pub open spec fn terminate_step(s: SessionV) -> (SessionV, bool) {
    (
        SessionV { identifier: s.identifier, last_seen: s.last_seen, active: false },
        s.active,
    )
}

/// Lifecycle state of a session. `Terminated` is terminal and absorbing.
#[derive(Debug, Clone, Copy, PartialEq, Eq, Structural)]
enum SessionState {
    Active,
    Terminated,
}

/// One per-connection session: the client-supplied identifier, the time of
/// the last liveness evidence, and the lifecycle state.
#[derive(Debug)]
pub struct Session {
    identifier: String,
    last_seen: u64,
    state: SessionState,
}

impl View for Session {
    type V = SessionV;

    closed spec fn view(&self) -> SessionV {
        SessionV {
            identifier: self.identifier@,
            last_seen: self.last_seen,
            active: self.state is Active,
        }
    }
}

impl Session {
    /// Creates a session for a freshly accepted connection: active, with
    /// `last_seen` initialized to the creation time `now`.
    pub fn new(identifier: String, now: u64) -> (s: Session)
        ensures
            s@ == (SessionV { identifier: identifier@, last_seen: now, active: true }),
    {
        Session { identifier, last_seen: now, state: SessionState::Active }
    }

    /// Processes one inbound event at time `now`, exactly as [`step`]
    /// prescribes, and returns the action the transport must perform.
    pub fn handle(&mut self, ev: Event, now: u64) -> (act: Action)
        ensures
            final(self)@ == step(old(self)@, ev@, now).0,
            act@ == step(old(self)@, ev@, now).1,
    {
        match self.state {
            SessionState::Terminated => Action::Nothing,
            SessionState::Active => match ev {
                Event::Ping(p) => {
                    self.last_seen = now;
                    Action::Pong(p)
                }
                Event::Pong(_) => {
                    self.last_seen = now;
                    Action::Nothing
                }
                Event::Text(t) => Action::EchoText(t),
                Event::Binary(b) => Action::EchoBinary(b),
                Event::Close(r) => {
                    self.state = SessionState::Terminated;
                    Action::CloseWith(r)
                }
                Event::Error => {
                    self.state = SessionState::Terminated;
                    Action::Shutdown
                }
            },
        }
    }

    /// Processes one liveness-timer tick at time `now`, exactly as
    /// [`tick_step`] prescribes: terminate without a probe on timeout,
    /// otherwise probe with an empty payload.
    ///
    /// The clock is monotone: a tick never observes a time before the last
    /// liveness evidence.
    pub fn tick(&mut self, now: u64) -> (act: Action)
        requires
            old(self)@.last_seen <= now,
        ensures
            final(self)@ == tick_step(old(self)@, now).0,
            act@ == tick_step(old(self)@, now).1,
    {
        match self.state {
            SessionState::Terminated => Action::Nothing,
            SessionState::Active => {
                if now - self.last_seen > CLIENT_TIMEOUT {
                    self.state = SessionState::Terminated;
                    Action::Shutdown
                } else {
                    Action::Ping(Vec::new())
                }
            }
        }
    }

    /// Terminates the session, exactly as [`terminate_step`] prescribes.
    /// Returns whether this call is the one that must close the transport;
    /// on a session already terminated it is a no-op returning `false`, so
    /// repeated invocations close the transport exactly once.
    pub fn terminate(&mut self) -> (close_now: bool)
        ensures
            final(self)@ == terminate_step(old(self)@).0,
            close_now == terminate_step(old(self)@).1,
    {
        match self.state {
            SessionState::Active => {
                self.state = SessionState::Terminated;
                true
            }
            SessionState::Terminated => false,
        }
    }

    /// The client-supplied identifier this session was created with.
    pub fn identifier(&self) -> (r: &String)
        ensures
            r@ == self@.identifier,
    {
        &self.identifier
    }

    /// The time of the most recent liveness evidence, or the creation time
    /// if no ping or pong has arrived yet.
    pub fn last_seen(&self) -> (r: u64)
        ensures
            r == self@.last_seen,
    {
        self.last_seen
    }

    /// Whether the session is still active.
    pub fn is_active(&self) -> (r: bool)
        ensures
            r == self@.active,
    {
        match self.state {
            SessionState::Active => true,
            SessionState::Terminated => false,
        }
    }
}

} // verus!
