//! The laws of the session state machine, stated over the spec-level
//! transitions and proved once for all inputs.

use vstd::prelude::*;

use crate::frame::{ActionV, EventV};
use crate::session::{step, terminate_step, tick_step, SessionV, CLIENT_TIMEOUT};

verus! {

/// Echo idempotence for text: on an active session a text payload is echoed
/// back exactly, and the session itself does not change.
pub proof fn lemma_echo_text(s: SessionV, t: Seq<char>, now: u64)
    requires
        s.active,
    ensures
        step(s, EventV::Text(t), now).0 == s,
        step(s, EventV::Text(t), now).1 == ActionV::EchoText(t),
{
}

/// Echo idempotence for binary payloads: on an active session a binary
/// payload is echoed back byte-identical, and the session does not change.
pub proof fn lemma_echo_binary(s: SessionV, b: Seq<u8>, now: u64)
    requires
        s.active,
    ensures
        step(s, EventV::Binary(b), now).0 == s,
        step(s, EventV::Binary(b), now).1 == ActionV::EchoBinary(b),
{
}

/// Probe reply: on an active session an inbound ping is answered with a
/// pong carrying the same payload, and `last_seen` is reset to now.
pub proof fn lemma_ping_reply(s: SessionV, p: Seq<u8>, now: u64)
    requires
        s.active,
    ensures
        step(s, EventV::Ping(p), now).1 == ActionV::Pong(p),
        step(s, EventV::Ping(p), now).0.last_seen == now,
        step(s, EventV::Ping(p), now).0.active,
{
}

/// Timeout: if more than [`CLIENT_TIMEOUT`] time-units have passed since the
/// last liveness evidence (or since creation, if none arrived), the next
/// timer tick terminates the session, without waiting for any peer input.
pub proof fn lemma_timeout(s: SessionV, now: u64)
    requires
        s.active,
        now > s.last_seen + CLIENT_TIMEOUT,
    ensures
        !tick_step(s, now).0.active,
        tick_step(s, now).1 == ActionV::Shutdown,
{
}

/// No probe on timeout: the tick that detects the timeout sends no outbound
/// probe frame, only the shutdown.
pub proof fn lemma_no_probe_on_timeout(s: SessionV, now: u64)
    requires
        s.active,
        now > s.last_seen + CLIENT_TIMEOUT,
    ensures
        !(tick_step(s, now).1 is Ping),
{
}

/// Termination idempotence: from any state, terminating reports the
/// transport close exactly when the session was still active, and a second
/// termination changes nothing and reports no further close — so however
/// many times termination is invoked, the transport is closed exactly once.
pub proof fn lemma_terminate_idempotent(s: SessionV)
    ensures
        terminate_step(s).1 == s.active,
        !terminate_step(s).0.active,
        terminate_step(terminate_step(s).0).0 == terminate_step(s).0,
        !terminate_step(terminate_step(s).0).1,
{
}

/// A terminated session is absorbing: every further event is discarded
/// silently and every further tick is ignored — no state change, no
/// outbound traffic.
pub proof fn lemma_terminated_absorbing(s: SessionV, ev: EventV, now: u64)
    requires
        !s.active,
    ensures
        step(s, ev, now).0 == s,
        step(s, ev, now).1 == ActionV::Nothing,
        tick_step(s, now).0 == s,
        tick_step(s, now).1 == ActionV::Nothing,
{
}

/// Session invariants under dispatch: with a monotone clock, `last_seen`
/// never decreases, and the identifier never changes; a tick never touches
/// `last_seen` at all.
pub proof fn lemma_step_preserves_invariants(s: SessionV, ev: EventV, now: u64)
    requires
        s.last_seen <= now,
    ensures
        step(s, ev, now).0.last_seen >= s.last_seen,
        step(s, ev, now).0.identifier == s.identifier,
        tick_step(s, now).0.last_seen == s.last_seen,
        tick_step(s, now).0.identifier == s.identifier,
        terminate_step(s).0.last_seen == s.last_seen,
        terminate_step(s).0.identifier == s.identifier,
{
}

/// One inbound event together with the time at which it is processed.
pub ghost struct TimedEvent {
    pub event: EventV,
    pub at: u64,
}

/// Whether an event counts as liveness evidence: an inbound ping or pong.
pub open spec fn is_liveness(ev: EventV) -> bool {
    ev is Ping || ev is Pong
}

/// Whether an event leaves the session active: anything but a close request
/// or a transport error.
pub open spec fn relays(ev: EventV) -> bool {
    !(ev is Close) && !(ev is Error)
}

/// The session that results from processing the events of `evs` in order,
/// first to last, starting from `s`.
pub open spec fn run(s: SessionV, evs: Seq<TimedEvent>) -> SessionV
    decreases evs.len(),
{
    if evs.len() == 0 {
        s
    } else {
        step(run(s, evs.drop_last()), evs.last().event, evs.last().at).0
    }
}

/// The time of the most recent liveness evidence in `evs`, or `t0` if `evs`
/// holds none.
pub open spec fn last_liveness(t0: u64, evs: Seq<TimedEvent>) -> u64
    decreases evs.len(),
{
    if evs.len() == 0 {
        t0
    } else if is_liveness(evs.last().event) {
        evs.last().at
    } else {
        last_liveness(t0, evs.drop_last())
    }
}

/// Liveness reset law: for every sequence of relayed events (none of which
/// closes the session), `last_seen` after processing equals the time of the
/// most recent ping-or-pong event, or the creation time `t0` if none
/// occurred yet — and the session stays active under its identifier.
pub proof fn lemma_liveness_reset(id: Seq<char>, t0: u64, evs: Seq<TimedEvent>)
    requires
        forall|i: int| 0 <= i < evs.len() ==> #[trigger] relays(evs[i].event),
    ensures
        run(SessionV { identifier: id, last_seen: t0, active: true }, evs).last_seen
            == last_liveness(t0, evs),
        run(SessionV { identifier: id, last_seen: t0, active: true }, evs).active,
        run(SessionV { identifier: id, last_seen: t0, active: true }, evs).identifier == id,
    decreases evs.len(),
{
    if evs.len() > 0 {
        let prefix = evs.drop_last();
        assert forall|i: int| 0 <= i < prefix.len() implies #[trigger] relays(prefix[i].event) by {
            assert(prefix[i] == evs[i]);
            assert(relays(evs[i].event));
        }
        lemma_liveness_reset(id, t0, prefix);
        assert(relays(evs[evs.len() - 1].event));
        assert(evs.last() == evs[evs.len() - 1]);
    }
}

} // verus!
