use protosuit_engine::command::AppCommand;
use protosuit_engine::mqtt_handler::{
    BackoffPolicy, DiscardReason, MQTTHandler, SessionAction, SessionEvent, SessionOptions, SessionState,
};

fn handler() -> MQTTHandler {
    MQTTHandler::new("localhost", 1883, "protosuit-engine-client-head").unwrap()
}

fn publish(topic: &str, payload: &str) -> SessionEvent {
    SessionEvent::Publish { topic: topic.to_string(), payload: payload.as_bytes().to_vec() }
}

fn subscribe() -> SessionAction {
    SessionAction::Subscribe { filter: "app/+".to_string() }
}

fn wait_of(actions: &Vec<SessionAction>) -> u64 {
    match actions[1] {
        SessionAction::Wait { secs } => secs,
        _ => panic!("no wait"),
    }
}

#[test]
fn new_session_is_disconnected() {
    let h = handler();
    assert_eq!(h.state(), SessionState::Disconnected);
    assert_eq!(h.consecutive_errors(), 0);
    assert!(!h.is_escalated());
    assert_eq!(h.broker(), "localhost");
    assert_eq!(h.port(), 1883);
    assert_eq!(h.client_id(), "protosuit-engine-client-head");
}

#[test]
fn empty_identity_is_refused() {
    assert!(MQTTHandler::new("localhost", 1883, "").is_none());
    assert!(MQTTHandler::new("", 0, "x").is_some());
}

#[test]
fn standard_policy_is_three_one_five() {
    let policy = BackoffPolicy::standard();
    assert_eq!(policy, BackoffPolicy { threshold: 3, base_secs: 1, ceiling_secs: 5 });
    assert!(policy.is_valid());
}

#[test]
fn unusable_policies_are_refused() {
    let no_threshold = BackoffPolicy { threshold: 0, base_secs: 1, ceiling_secs: 5 };
    let flat = BackoffPolicy { threshold: 3, base_secs: 5, ceiling_secs: 5 };
    let falling = BackoffPolicy { threshold: 3, base_secs: 6, ceiling_secs: 5 };
    assert!(!no_threshold.is_valid());
    assert!(!flat.is_valid());
    assert!(!falling.is_valid());
    assert!(MQTTHandler::with_policy("b", 1, "id", no_threshold).is_none());
    assert!(MQTTHandler::with_policy("b", 1, "id", flat).is_none());
    assert!(MQTTHandler::with_policy("b", 1, "id", falling).is_none());
    assert!(MQTTHandler::with_policy("b", 1, "", BackoffPolicy::standard()).is_none());
}

#[test]
fn options_keep_the_session() {
    assert_eq!(
        handler().options(),
        SessionOptions {
            keep_alive_secs: 5,
            clean_session: false,
            connection_timeout_secs: 10,
            max_packet_size: 102400,
            pending_throttle_millis: 100,
            request_capacity: 10,
        }
    );
}

#[test]
fn opening_subscribes_once() {
    let mut h = handler();
    assert_eq!(h.start(SessionEvent::Opened), vec![subscribe()]);
    assert_eq!(h.state(), SessionState::Connecting);
    assert_eq!(h.start(SessionEvent::Opened), Vec::new());
    assert_eq!(h.state(), SessionState::Connecting);
}

#[test]
fn acknowledgement_reports_and_subscribes() {
    let mut h = handler();
    h.start(SessionEvent::Opened);
    assert_eq!(h.start(SessionEvent::ConnAck), vec![SessionAction::Status(true), subscribe()]);
    assert_eq!(h.state(), SessionState::Connected);
}

#[test]
fn every_reconnect_is_answered_alike() {
    let mut h = handler();
    h.start(SessionEvent::Opened);
    let first = h.start(SessionEvent::ConnAck);
    h.start(SessionEvent::TransportError);
    let second = h.start(SessionEvent::ConnAck);
    let third = h.start(SessionEvent::ConnAck);
    assert_eq!(first, second);
    assert_eq!(second, third);
    assert_eq!(h.state(), SessionState::Connected);
}

#[test]
fn one_message_yields_one_command() {
    let mut h = handler();
    h.start(SessionEvent::Opened);
    h.start(SessionEvent::ConnAck);
    let actions = h.start(publish("app/stop", r#"{"name":"cam"}"#));
    assert_eq!(actions, vec![SessionAction::Forward(AppCommand::Stop { name: "cam".to_string() })]);
}

#[test]
fn resubscribing_does_not_duplicate_delivery() {
    let mut h = handler();
    h.start(SessionEvent::Opened);
    for _ in 0..5 {
        h.start(SessionEvent::ConnAck);
    }
    let actions = h.start(publish("app/switch", r#"{"name":"idle"}"#));
    assert_eq!(actions, vec![SessionAction::Forward(AppCommand::Switch { name: "idle".to_string() })]);
    let again = h.start(publish("app/switch", r#"{"name":"idle"}"#));
    assert_eq!(again.len(), 1);
}

#[test]
fn start_message_is_forwarded_whole() {
    let mut h = handler();
    let actions = h.start(publish("app/start", r#"{"name":"cam","command":"capture","args":["--device","0"]}"#));
    assert_eq!(
        actions,
        vec![SessionAction::Forward(AppCommand::Start {
            name: "cam".to_string(),
            command: "capture".to_string(),
            args: vec!["--device".to_string(), "0".to_string()],
        })]
    );
}

#[test]
fn malformed_payload_is_dropped_with_one_warning() {
    let mut h = handler();
    h.start(SessionEvent::Opened);
    h.start(SessionEvent::ConnAck);
    let actions = h.start(publish("app/start", "{not json"));
    assert_eq!(actions, vec![SessionAction::Discard(DiscardReason::Malformed)]);
    assert_eq!(h.state(), SessionState::Connected);
    assert_eq!(h.consecutive_errors(), 0);
}

#[test]
fn body_of_another_kind_is_dropped() {
    let mut h = handler();
    let actions = h.start(publish("app/start", r#"{"name":"cam"}"#));
    assert_eq!(actions, vec![SessionAction::Discard(DiscardReason::Malformed)]);
}

#[test]
fn unknown_topic_is_dropped_with_one_warning() {
    let mut h = handler();
    h.start(SessionEvent::Opened);
    h.start(SessionEvent::ConnAck);
    let actions = h.start(publish("app/restart", r#"{"name":"cam"}"#));
    assert_eq!(actions, vec![SessionAction::Discard(DiscardReason::UnknownTopic)]);
    let status = h.start(publish("app/status/cam", "running"));
    assert_eq!(status, vec![SessionAction::Discard(DiscardReason::UnknownTopic)]);
    assert_eq!(h.state(), SessionState::Connected);
}

#[test]
fn other_traffic_changes_nothing() {
    let mut h = handler();
    h.start(SessionEvent::Opened);
    h.start(SessionEvent::ConnAck);
    h.start(SessionEvent::TransportError);
    assert_eq!(h.start(SessionEvent::Other), Vec::new());
    assert_eq!(h.state(), SessionState::Degraded);
    assert_eq!(h.consecutive_errors(), 1);
}

#[test]
fn transport_error_reports_and_waits() {
    let mut h = handler();
    h.start(SessionEvent::Opened);
    h.start(SessionEvent::ConnAck);
    let actions = h.start(SessionEvent::TransportError);
    assert_eq!(actions, vec![SessionAction::Status(false), SessionAction::Wait { secs: 1 }]);
    assert_eq!(h.state(), SessionState::Degraded);
    assert_eq!(h.consecutive_errors(), 1);
}

#[test]
fn third_error_in_a_row_waits_longer_and_resets() {
    let mut h = handler();
    h.start(SessionEvent::Opened);
    h.start(SessionEvent::ConnAck);
    assert_eq!(wait_of(&h.start(SessionEvent::TransportError)), 1);
    assert_eq!(wait_of(&h.start(SessionEvent::TransportError)), 1);
    assert_eq!(h.consecutive_errors(), 2);
    assert!(!h.is_escalated());
    assert_eq!(wait_of(&h.start(SessionEvent::TransportError)), 5);
    assert_eq!(h.consecutive_errors(), 0);
    assert!(h.is_escalated());
}

#[test]
fn errors_after_the_threshold_keep_the_long_wait() {
    let mut h = handler();
    h.start(SessionEvent::Opened);
    h.start(SessionEvent::ConnAck);
    let waits: Vec<u64> = (0..8).map(|_| wait_of(&h.start(SessionEvent::TransportError))).collect();
    assert_eq!(waits, vec![1, 1, 5, 5, 5, 5, 5, 5]);
    assert!(h.is_escalated());
    assert_eq!(h.consecutive_errors(), 2);
    assert_eq!(h.state(), SessionState::Degraded);
}

#[test]
fn other_traffic_does_not_end_a_run_of_errors() {
    let mut h = handler();
    for _ in 0..3 {
        h.start(SessionEvent::TransportError);
    }
    h.start(SessionEvent::Other);
    h.start(SessionEvent::Opened);
    assert!(h.is_escalated());
    assert_eq!(wait_of(&h.start(SessionEvent::TransportError)), 5);
}

#[test]
fn waits_never_shorten_within_a_run() {
    let policy = BackoffPolicy { threshold: 6, base_secs: 2, ceiling_secs: 9 };
    let mut h = MQTTHandler::with_policy("b", 1, "id", policy).unwrap();
    let mut last: u64 = 0;
    let mut waits: Vec<u64> = Vec::new();
    for _ in 0..20 {
        let wait = wait_of(&h.start(SessionEvent::TransportError));
        assert!(wait >= last);
        assert!(wait <= 9);
        last = wait;
        waits.push(wait);
    }
    assert_eq!(&waits[..7], &[2, 2, 2, 2, 2, 9, 9]);
    assert_eq!(last, 9);
}

#[test]
fn threshold_of_one_always_waits_long() {
    let policy = BackoffPolicy { threshold: 1, base_secs: 0, ceiling_secs: 7 };
    let mut h = MQTTHandler::with_policy("b", 1, "id", policy).unwrap();
    assert_eq!(wait_of(&h.start(SessionEvent::TransportError)), 7);
    assert_eq!(h.consecutive_errors(), 0);
    assert_eq!(wait_of(&h.start(SessionEvent::TransportError)), 7);
    h.start(SessionEvent::ConnAck);
    assert_eq!(wait_of(&h.start(SessionEvent::TransportError)), 7);
}

#[test]
fn a_message_breaks_the_run_of_errors() {
    let mut h = handler();
    h.start(SessionEvent::TransportError);
    h.start(SessionEvent::TransportError);
    assert_eq!(h.consecutive_errors(), 2);
    h.start(publish("app/stop", r#"{"name":"cam"}"#));
    assert_eq!(h.consecutive_errors(), 0);
    assert_eq!(wait_of(&h.start(SessionEvent::TransportError)), 1);
    assert_eq!(wait_of(&h.start(SessionEvent::TransportError)), 1);
    assert_eq!(wait_of(&h.start(SessionEvent::TransportError)), 5);
}

#[test]
fn a_message_brings_the_wait_back_to_the_base() {
    let mut h = handler();
    for _ in 0..5 {
        h.start(SessionEvent::TransportError);
    }
    assert!(h.is_escalated());
    h.start(publish("app/unknown", "not even json"));
    assert!(!h.is_escalated());
    assert_eq!(h.consecutive_errors(), 0);
    let waits: Vec<u64> = (0..4).map(|_| wait_of(&h.start(SessionEvent::TransportError))).collect();
    assert_eq!(waits, vec![1, 1, 5, 5]);
}

#[test]
fn a_reconnect_breaks_the_run_of_errors() {
    let mut h = handler();
    h.start(SessionEvent::TransportError);
    h.start(SessionEvent::TransportError);
    h.start(SessionEvent::ConnAck);
    assert_eq!(h.consecutive_errors(), 0);
    assert_eq!(h.state(), SessionState::Connected);
    assert_eq!(wait_of(&h.start(SessionEvent::TransportError)), 1);
}

#[test]
fn a_reconnect_brings_the_wait_back_to_the_base() {
    let mut h = handler();
    for _ in 0..4 {
        h.start(SessionEvent::TransportError);
    }
    assert!(h.is_escalated());
    h.start(SessionEvent::ConnAck);
    assert!(!h.is_escalated());
    let waits: Vec<u64> = (0..4).map(|_| wait_of(&h.start(SessionEvent::TransportError))).collect();
    assert_eq!(waits, vec![1, 1, 5, 5]);
}

#[test]
fn error_before_the_first_acknowledgement_keeps_connecting() {
    let mut h = handler();
    h.start(SessionEvent::Opened);
    let actions = h.start(SessionEvent::TransportError);
    assert_eq!(actions, vec![SessionAction::Status(false), SessionAction::Wait { secs: 1 }]);
    assert_eq!(h.state(), SessionState::Connecting);
}

#[test]
fn shutdown_reports_and_returns() {
    let mut h = handler();
    h.start(SessionEvent::Opened);
    h.start(SessionEvent::ConnAck);
    let actions = h.start(SessionEvent::Shutdown);
    assert_eq!(actions, vec![SessionAction::Status(false), SessionAction::Return { clean: true }]);
    assert_eq!(h.state(), SessionState::Stopped);
}

#[test]
fn shutdown_is_reachable_from_every_state() {
    let mut fresh = handler();
    assert_eq!(fresh.start(SessionEvent::Shutdown).len(), 2);
    assert_eq!(fresh.state(), SessionState::Stopped);
    let mut degraded = handler();
    degraded.start(SessionEvent::ConnAck);
    degraded.start(SessionEvent::TransportError);
    assert_eq!(degraded.start(SessionEvent::Shutdown).len(), 2);
    assert_eq!(degraded.state(), SessionState::Stopped);
}

#[test]
fn failed_hand_off_ends_the_session_uncleanly() {
    let mut h = handler();
    h.start(SessionEvent::ConnAck);
    assert_eq!(h.start(SessionEvent::HandOffFailed), vec![SessionAction::Return { clean: false }]);
    assert_eq!(h.state(), SessionState::Stopped);
}

#[test]
fn a_stopped_session_does_nothing() {
    let mut h = handler();
    h.start(SessionEvent::Shutdown);
    assert_eq!(h.start(SessionEvent::Opened), Vec::new());
    assert_eq!(h.start(SessionEvent::ConnAck), Vec::new());
    assert_eq!(h.start(publish("app/stop", r#"{"name":"cam"}"#)), Vec::new());
    assert_eq!(h.start(SessionEvent::TransportError), Vec::new());
    assert_eq!(h.start(SessionEvent::Shutdown), Vec::new());
    assert_eq!(h.start(SessionEvent::Other), Vec::new());
    assert_eq!(h.state(), SessionState::Stopped);
    assert_eq!(h.consecutive_errors(), 0);
}

#[test]
fn failed_last_report_ends_the_shutdown_uncleanly() {
    let mut h = handler();
    h.start(SessionEvent::ConnAck);
    let actions = h.start(SessionEvent::Shutdown);
    assert_eq!(actions[0], SessionAction::Status(false));
    assert_eq!(h.start(SessionEvent::HandOffFailed), vec![SessionAction::Return { clean: false }]);
    assert_eq!(h.state(), SessionState::Stopped);
}

#[test]
fn status_is_published_under_the_scene() {
    let report = handler().publish_status("cam", "running");
    assert_eq!(report.topic, "app/status/cam");
    assert_eq!(report.payload, "running");
    let empty = handler().publish_status("", "");
    assert_eq!(empty.topic, "app/status/");
    assert_eq!(empty.payload, "");
}
