//! Core of a per-connection session manager for a persistent bidirectional
//! framed streaming channel.
//!
//! A [`session::Session`] owns one connection's lifecycle: it relays payload
//! frames back to the peer, tracks liveness through ping/pong traffic, sends
//! a probe on a recurring timer tick, and terminates the session when the
//! peer goes quiet for longer than the timeout threshold.
//!
//! The session is a plain state machine driven by an explicit event
//! enumeration; the transport and the timer that feed it events live outside
//! this crate and only interpret the [`frame::Action`] values it returns.

pub mod frame;
pub mod laws;
pub mod session;
