use eventful::clock::{clock_instant, now_millis, MAX_CLOCK_MS};
use eventful::domain::{Event, EventPayload, EventRecord, EventStatus, EventType};
use eventful::domain::hash::{hash_payload_text, to_lower_hex};

/// The JSON text of an object with the given string members, as
/// `serde_json` writes it.
fn json_object(members: &[(&str, &str)]) -> EventPayload {
    let mut map = serde_json::Map::new();
    for (k, v) in members {
        map.insert(k.to_string(), serde_json::Value::String(v.to_string()));
    }
    EventPayload(serde_json::to_string(&serde_json::Value::Object(map)).unwrap())
}

fn now() -> i64 {
    chrono::Utc::now().timestamp_millis()
}

#[test]
fn test_event_status_transitions() {
    // Valid transitions
    assert!(EventStatus::Received.can_transition(EventStatus::Processing));
    assert!(EventStatus::Processing.can_transition(EventStatus::Completed));
    assert!(EventStatus::Processing.can_transition(EventStatus::FailedRetry));
    assert!(EventStatus::Processing.can_transition(EventStatus::Failed));

    // Invalid transitions
    assert!(!EventStatus::Received.can_transition(EventStatus::Completed));
    assert!(!EventStatus::Received.can_transition(EventStatus::Failed));
    assert!(!EventStatus::Completed.can_transition(EventStatus::Processing));
    assert!(!EventStatus::Failed.can_transition(EventStatus::Processing));
    assert!(!EventStatus::FailedRetry.can_transition(EventStatus::Received));
}

#[test]
fn test_failed_retry_may_be_processed_again() {
    assert!(EventStatus::FailedRetry.can_transition(EventStatus::Processing));
    assert!(!EventStatus::FailedRetry.can_transition(EventStatus::Completed));
}

#[test]
fn test_event_record_creation() {
    let event = Event {
        event_id: "test-123".to_string(),
        event_type: EventType::UserLoginFailed,
        occurred_at: now(),
        payload: json_object(&[("user_id", "user1")]),
    };

    let record = EventRecord::new(event.clone());

    assert_eq!(record.event.event_id, "test-123");
    assert_eq!(record.status, EventStatus::Received);
    assert!(!record.queued);
    assert_eq!(record.attempts, 0);
    assert_eq!(record.payload_hash, event.get_hash());
    assert!(record.queue_time.is_none());
    assert!(record.last_error.is_none());
    assert!(record.result.is_none());
}

#[test]
fn test_event_hash_generation() {
    let payload = json_object(&[("user_id", "user1"), ("action", "login")]);
    let event1 = Event {
        event_id: "event1".to_string(),
        event_type: EventType::UserLoginFailed,
        occurred_at: now(),
        payload: payload.clone(),
    };

    let event2 = Event {
        event_id: "event2".to_string(),
        event_type: EventType::UserLoginFailed,
        occurred_at: now(),
        payload: payload.clone(),
    };

    // Same payload should produce same hash
    assert_eq!(event1.get_hash(), event2.get_hash());
}

#[test]
fn test_event_hash_differs_for_different_payloads() {
    let event1 = Event {
        event_id: "event1".to_string(),
        event_type: EventType::UserLoginFailed,
        occurred_at: now(),
        payload: json_object(&[("user_id", "user1")]),
    };

    let event2 = Event {
        event_id: "event1".to_string(),
        event_type: EventType::UserLoginFailed,
        occurred_at: now(),
        payload: json_object(&[("user_id", "user2")]),
    };

    // Different payloads should produce different hashes
    assert_ne!(event1.get_hash(), event2.get_hash());
}

#[test]
fn test_event_type_conversions() {
    assert_eq!(String::from(EventType::UserLoginFailed), "user.login_failed");
    assert_eq!(String::from(EventType::ConnectionTimeout), "connection.timeout");
    assert_eq!(String::from(EventType::DataProcessingError), "data.processing_error");

    let custom = EventType::Other("custom.event".to_string());
    assert_eq!(String::from(custom), "custom.event");
}

#[test]
fn test_event_type_string_parsing() {
    let event_type: EventType = "user.login_failed".to_string().try_into().unwrap();
    assert!(matches!(event_type, EventType::UserLoginFailed));

    let event_type: EventType = "connection.timeout".to_string().try_into().unwrap();
    assert!(matches!(event_type, EventType::ConnectionTimeout));

    let event_type: EventType = "custom.event".to_string().try_into().unwrap();
    assert!(matches!(event_type, EventType::Other(ref s) if s == "custom.event"));
}

#[test]
fn test_event_status_display() {
    assert_eq!(EventStatus::Received.to_string(), "Received");
    assert_eq!(EventStatus::Processing.to_string(), "Processing");
    assert_eq!(EventStatus::Completed.to_string(), "Completed");
    assert_eq!(EventStatus::FailedRetry.to_string(), "FailedRetry");
    assert_eq!(EventStatus::Failed.to_string(), "Failed");
}

#[test]
fn test_payload_hash_is_lowercase_md5_hex() {
    assert_eq!(hash_payload_text(""), "d41d8cd98f00b204e9800998ecf8427e");
    let payload = json_object(&[("user_id", "user1")]);
    assert_eq!(payload.0, "{\"user_id\":\"user1\"}");
    let event = Event {
        event_id: "e".to_string(),
        event_type: EventType::Other("x".to_string()),
        occurred_at: 0,
        payload,
    };
    assert_eq!(event.get_hash(), "b0e9366d11423eb71dff30dcdeb42684");
}

#[test]
fn test_lower_hex_rendering() {
    assert_eq!(to_lower_hex(&[]), "");
    assert_eq!(to_lower_hex(&[0x00, 0x0f, 0xa0, 0xff]), "000fa0ff");
}

#[test]
fn test_data_processing_error_parses_and_unknown_names_are_kept() {
    let t: EventType = "data.processing_error".to_string().try_into().unwrap();
    assert!(matches!(t, EventType::DataProcessingError));
    let t: EventType = "User.Login_Failed".to_string().try_into().unwrap();
    assert!(matches!(t, EventType::Other(ref s) if s == "User.Login_Failed"));
    assert_eq!(String::from(t), "User.Login_Failed");
}

#[test]
fn test_no_transition_leads_back_or_leaves_terminal_states() {
    let all = [
        EventStatus::Received,
        EventStatus::Processing,
        EventStatus::Completed,
        EventStatus::FailedRetry,
        EventStatus::Failed,
    ];
    for from in all {
        for to in all {
            if from.can_transition(to) {
                assert_ne!(to, EventStatus::Received);
                assert_ne!(from, to);
                assert_ne!(from, EventStatus::Completed);
                assert_ne!(from, EventStatus::Failed);
            }
        }
    }
}

#[test]
fn test_record_created_at_given_instant() {
    let event = Event {
        event_id: "at".to_string(),
        event_type: EventType::ConnectionTimeout,
        occurred_at: 5,
        payload: EventPayload("{}".to_string()),
    };
    let record = EventRecord::new_at(event, 1_234);
    assert_eq!(record.created_at, 1_234);
    assert_eq!(record.updated_at, 1_234);
    assert_eq!(record.event.occurred_at, 5);
}

#[test]
fn test_record_stamped_with_current_time() {
    let event = Event {
        event_id: "clock".to_string(),
        event_type: EventType::ConnectionTimeout,
        occurred_at: 0,
        payload: EventPayload("{}".to_string()),
    };
    let before = chrono::Utc::now().timestamp_millis();
    let record = EventRecord::new(event);
    let after = chrono::Utc::now().timestamp_millis();
    assert!(before <= record.created_at && record.created_at <= after);
    assert_eq!(record.created_at, record.updated_at);
    assert!(record.created_at <= MAX_CLOCK_MS);
}

#[test]
fn test_clock_reads_current_time() {
    let before = chrono::Utc::now().timestamp_millis();
    let t = now_millis();
    let after = chrono::Utc::now().timestamp_millis();
    assert!(before <= t && t <= after);
}

#[test]
fn test_clock_instant_of_raw_readings() {
    assert_eq!(clock_instant(None), 0);
    assert_eq!(clock_instant(Some(0)), 0);
    assert_eq!(clock_instant(Some(1_700_000_000_123)), 1_700_000_000_123);
    assert_eq!(clock_instant(Some(MAX_CLOCK_MS as u128)), MAX_CLOCK_MS);
    assert_eq!(clock_instant(Some(MAX_CLOCK_MS as u128 + 1)), MAX_CLOCK_MS);
    assert_eq!(clock_instant(Some(u128::MAX)), MAX_CLOCK_MS);
}
