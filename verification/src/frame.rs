//! Inbound events and outbound actions of a session, with their
//! mathematical views.

use vstd::prelude::*;

verus! {

/// Close information supplied by the peer with a close request. It is echoed
/// back verbatim in the close acknowledgement.
#[derive(Debug, Clone, PartialEq)]
pub struct CloseReason {
    /// Numeric close code chosen by the peer (1000 denotes a normal closure).
    pub code: u16,
    /// Optional human-readable description supplied by the peer.
    pub description: Option<String>,
}

/// Mathematical view of a [`CloseReason`].
pub ghost struct CloseReasonV {
    pub code: u16,
    pub description: Option<Seq<char>>,
}

impl View for CloseReason {
    type V = CloseReasonV;

    open spec fn view(&self) -> CloseReasonV {
        CloseReasonV {
            code: self.code,
            description: match self.description {
                Some(d) => Some(d@),
                None => None,
            },
        }
    }
}

/// One inbound event delivered to a session, in arrival order: a frame from
/// the peer, or a transport-level failure.
#[derive(Debug, PartialEq)]
pub enum Event {
    /// Liveness probe from the peer, carrying its payload.
    Ping(Vec<u8>),
    /// Liveness acknowledgement from the peer, carrying its payload.
    Pong(Vec<u8>),
    /// A text payload frame.
    Text(String),
    /// A binary payload frame.
    Binary(Vec<u8>),
    /// A close request, with the peer-supplied reason if one was given.
    Close(Option<CloseReason>),
    /// A malformed or unrecognized frame, or a transport-level error.
    Error,
}

/// Mathematical view of an [`Event`].
pub ghost enum EventV {
    Ping(Seq<u8>),
    Pong(Seq<u8>),
    Text(Seq<char>),
    Binary(Seq<u8>),
    Close(Option<CloseReasonV>),
    Error,
}

impl View for Event {
    type V = EventV;

    open spec fn view(&self) -> EventV {
        match self {
            Event::Ping(p) => EventV::Ping(p@),
            Event::Pong(p) => EventV::Pong(p@),
            Event::Text(t) => EventV::Text(t@),
            Event::Binary(b) => EventV::Binary(b@),
            Event::Close(r) => EventV::Close(
                match r {
                    Some(cr) => Some(cr@),
                    None => None,
                },
            ),
            Event::Error => EventV::Error,
        }
    }
}

/// The outbound action a session asks its transport to perform in response
/// to one event or timer tick.
#[derive(Debug, PartialEq)]
pub enum Action {
    /// Reply to a liveness probe: an acknowledgement carrying the same
    /// payload as the probe.
    Pong(Vec<u8>),
    /// Echo a text payload back to the sender, unmodified.
    EchoText(String),
    /// Echo a binary payload back to the sender, byte-identical.
    EchoBinary(Vec<u8>),
    /// Acknowledge a close request with the peer-supplied reason, then shut
    /// the transport down.
    CloseWith(Option<CloseReason>),
    /// Send an outbound liveness probe with the payload given (the session
    /// always asks for an empty payload).
    Ping(Vec<u8>),
    /// Shut the transport down immediately, with no reply.
    Shutdown,
    /// No outbound traffic.
    Nothing,
}

/// Mathematical view of an [`Action`].
pub ghost enum ActionV {
    Pong(Seq<u8>),
    EchoText(Seq<char>),
    EchoBinary(Seq<u8>),
    CloseWith(Option<CloseReasonV>),
    Ping(Seq<u8>),
    Shutdown,
    Nothing,
}

impl View for Action {
    type V = ActionV;

    open spec fn view(&self) -> ActionV {
        match self {
            Action::Pong(p) => ActionV::Pong(p@),
            Action::EchoText(t) => ActionV::EchoText(t@),
            Action::EchoBinary(b) => ActionV::EchoBinary(b@),
            Action::CloseWith(r) => ActionV::CloseWith(
                match r {
                    Some(cr) => Some(cr@),
                    None => None,
                },
            ),
            Action::Ping(p) => ActionV::Ping(p@),
            Action::Shutdown => ActionV::Shutdown,
            Action::Nothing => ActionV::Nothing,
        }
    }
}

} // verus!
