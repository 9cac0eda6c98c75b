use uroj_session::frame::{Action, CloseReason, Event};
use uroj_session::session::{Session, CLIENT_TIMEOUT, HEARTBEAT_INTERVAL};

#[test]
fn timer_constants() {
    assert_eq!(HEARTBEAT_INTERVAL, 5);
    assert_eq!(CLIENT_TIMEOUT, 10);
}

#[test]
fn new_session_is_active_with_creation_time() {
    let s = Session::new("abc123".to_string(), 7);
    assert!(s.is_active());
    assert_eq!(s.identifier().as_str(), "abc123");
    assert_eq!(s.last_seen(), 7);
}

#[test]
fn text_is_echoed_exactly() {
    let mut s = Session::new("abc123".to_string(), 0);
    let act = s.handle(Event::Text("hello".to_string()), 0);
    assert_eq!(act, Action::EchoText("hello".to_string()));
    assert!(s.is_active());
}

#[test]
fn binary_is_echoed_byte_identical() {
    let mut s = Session::new("s".to_string(), 0);
    let payload = vec![0u8, 159, 146, 150, 255];
    let act = s.handle(Event::Binary(payload.clone()), 1);
    assert_eq!(act, Action::EchoBinary(payload));
    assert!(s.is_active());
}

#[test]
fn ping_is_answered_with_matching_pong() {
    let mut s = Session::new("s".to_string(), 0);
    let act = s.handle(Event::Ping(vec![1, 2, 3]), 4);
    assert_eq!(act, Action::Pong(vec![1, 2, 3]));
    assert_eq!(s.last_seen(), 4);
    assert!(s.is_active());
}

#[test]
fn pong_resets_last_seen_silently() {
    let mut s = Session::new("s".to_string(), 0);
    let act = s.handle(Event::Pong(vec![]), 3);
    assert_eq!(act, Action::Nothing);
    assert_eq!(s.last_seen(), 3);
    assert!(s.is_active());
}

#[test]
fn payload_frames_do_not_touch_last_seen() {
    let mut s = Session::new("s".to_string(), 0);
    s.handle(Event::Text("a".to_string()), 6);
    assert_eq!(s.last_seen(), 0);
    s.handle(Event::Binary(vec![9]), 8);
    assert_eq!(s.last_seen(), 0);
}

#[test]
fn last_seen_follows_most_recent_liveness_evidence() {
    let mut s = Session::new("s".to_string(), 0);
    assert_eq!(s.last_seen(), 0);
    s.handle(Event::Text("x".to_string()), 1);
    assert_eq!(s.last_seen(), 0);
    s.handle(Event::Ping(vec![]), 2);
    assert_eq!(s.last_seen(), 2);
    s.handle(Event::Binary(vec![1]), 3);
    assert_eq!(s.last_seen(), 2);
    s.handle(Event::Pong(vec![7]), 7);
    assert_eq!(s.last_seen(), 7);
    assert!(s.is_active());
}

#[test]
fn quiet_interval_draws_one_empty_probe() {
    let mut s = Session::new("s".to_string(), 0);
    let act = s.tick(5);
    assert_eq!(act, Action::Ping(vec![]));
    assert!(s.is_active());
    assert_eq!(s.last_seen(), 0);
}

#[test]
fn silence_past_threshold_closes_without_probe() {
    let mut s = Session::new("s".to_string(), 0);
    assert_eq!(s.tick(5), Action::Ping(vec![]));
    let act = s.tick(11);
    assert_eq!(act, Action::Shutdown);
    assert!(!s.is_active());
}

#[test]
fn tick_at_exact_threshold_still_probes() {
    let mut s = Session::new("s".to_string(), 0);
    let act = s.tick(10);
    assert_eq!(act, Action::Ping(vec![]));
    assert!(s.is_active());
}

#[test]
fn probe_does_not_update_last_seen() {
    let mut s = Session::new("s".to_string(), 0);
    s.tick(5);
    assert_eq!(s.last_seen(), 0);
}

#[test]
fn close_is_acknowledged_with_same_reason_then_terminated() {
    let mut s = Session::new("s".to_string(), 0);
    let reason = CloseReason { code: 1000, description: None };
    let act = s.handle(Event::Close(Some(reason.clone())), 2);
    assert_eq!(act, Action::CloseWith(Some(reason)));
    assert!(!s.is_active());
}

#[test]
fn close_with_description_echoes_it() {
    let mut s = Session::new("s".to_string(), 0);
    let reason = CloseReason { code: 1001, description: Some("going away".to_string()) };
    let act = s.handle(Event::Close(Some(reason.clone())), 2);
    assert_eq!(act, Action::CloseWith(Some(reason)));
}

#[test]
fn close_without_reason_is_acknowledged_without_one() {
    let mut s = Session::new("s".to_string(), 0);
    let act = s.handle(Event::Close(None), 2);
    assert_eq!(act, Action::CloseWith(None));
    assert!(!s.is_active());
}

#[test]
fn malformed_input_terminates_with_no_reply() {
    let mut s = Session::new("s".to_string(), 0);
    let act = s.handle(Event::Error, 2);
    assert_eq!(act, Action::Shutdown);
    assert!(!s.is_active());
}

#[test]
fn terminated_session_discards_every_event() {
    let mut s = Session::new("s".to_string(), 0);
    s.handle(Event::Close(None), 1);
    assert_eq!(s.handle(Event::Text("late".to_string()), 2), Action::Nothing);
    assert_eq!(s.handle(Event::Ping(vec![1]), 3), Action::Nothing);
    assert_eq!(s.tick(5), Action::Nothing);
    assert_eq!(s.last_seen(), 0);
    assert!(!s.is_active());
}

#[test]
fn termination_closes_the_transport_exactly_once() {
    let mut s = Session::new("s".to_string(), 0);
    assert!(s.terminate());
    assert!(!s.terminate());
    assert!(!s.terminate());
    assert!(!s.is_active());
}

#[test]
fn peer_close_and_later_termination_close_only_once() {
    let mut s = Session::new("s".to_string(), 0);
    let act = s.handle(Event::Close(Some(CloseReason { code: 1000, description: None })), 1);
    assert!(matches!(act, Action::CloseWith(_)));
    assert!(!s.terminate());
}

#[test]
fn pong_at_three_defers_timeout_past_thirteen() {
    let mut s = Session::new("s".to_string(), 0);
    assert_eq!(s.handle(Event::Pong(vec![]), 3), Action::Nothing);
    assert_eq!(s.tick(5), Action::Ping(vec![]));
    assert_eq!(s.tick(10), Action::Ping(vec![]));
    assert_eq!(s.tick(13), Action::Ping(vec![]));
    assert!(s.is_active());
    assert_eq!(s.tick(14), Action::Shutdown);
    assert!(!s.is_active());
}
