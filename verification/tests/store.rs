use eventful::domain::{Event, EventPayload, EventStatus, EventType};
use eventful::store::{MemoryStore, ReserveResult, StartResult, StoreError};

fn json_object(members: &[(&str, &str)]) -> EventPayload {
    let mut map = serde_json::Map::new();
    for (k, v) in members {
        map.insert(k.to_string(), serde_json::Value::String(v.to_string()));
    }
    EventPayload(serde_json::to_string(&serde_json::Value::Object(map)).unwrap())
}

fn now() -> i64 {
    chrono::Utc::now().timestamp_millis()
}

fn create_test_event(event_id: &str) -> Event {
    Event {
        event_id: event_id.to_string(),
        event_type: EventType::UserLoginFailed,
        occurred_at: now(),
        payload: json_object(&[("user_id", "test_user")]),
    }
}

#[test]
fn test_insert_if_absent_new_event() {
    let mut store = MemoryStore::new(100, 5, 3000, 128);
    let event = create_test_event("event-1");

    let (record, result) = store.insert_if_absent(event.clone());

    assert!(result.is_ok());
    assert!(result.unwrap() == true); // newly inserted
    assert_eq!(record.event.event_id, "event-1");
    assert_eq!(record.status, EventStatus::Received);
    assert_eq!(record.payload_hash, event.get_hash());
}

#[test]
fn test_insert_if_absent_duplicate_event() {
    let mut store = MemoryStore::new(100, 5, 3000, 128);
    let event = create_test_event("event-1");

    let (_, result1) = store.insert_if_absent(event.clone());
    let (record2, result2) = store.insert_if_absent(event.clone());

    assert!(result1.unwrap() == true);
    assert!(result2.unwrap() == false);
    assert_eq!(record2.event.event_id, "event-1");
}

#[test]
fn test_insert_if_absent_hash_mismatch() {
    let mut store = MemoryStore::new(100, 5, 3000, 128);
    let event1 = Event {
        event_id: "event-1".to_string(),
        event_type: EventType::UserLoginFailed,
        occurred_at: now(),
        payload: json_object(&[("user_id", "user1")]),
    };
    let event2 = Event {
        event_id: "event-1".to_string(), // same ID
        event_type: EventType::UserLoginFailed,
        occurred_at: now(),
        payload: json_object(&[("user_id", "user2")]), // different payload
    };

    let (_, result1) = store.insert_if_absent(event1);
    let (_, result2) = store.insert_if_absent(event2);

    assert!(result1.is_ok());
    assert!(result2.is_err());
    assert!(matches!(result2, Err(StoreError::HashMismatch)));
}

#[test]
fn test_get_event() {
    let mut store = MemoryStore::new(100, 5, 3000, 128);
    let event = create_test_event("event-1");

    _ = store.insert_if_absent(event);
    let result = store.get("event-1");

    assert!(result.is_ok());
    assert_eq!(result.unwrap().event.event_id, "event-1");
}

#[test]
fn test_get_nonexistent_event() {
    let store = MemoryStore::new(100, 5, 3000, 128);

    let result = store.get("nonexistent");

    assert!(result.is_err());
    assert!(matches!(result, Err(StoreError::NotFound)));
}

#[test]
fn test_reserve_enqueue_if_needed_noop_already_completed() {
    let mut store = MemoryStore::new(100, 5, 3000, 128);
    let event = create_test_event("event-1");

    let (mut record, _) = store.insert_if_absent(event);
    record.status = EventStatus::Completed;

    store.update_record_for_test(record);

    let result = store.reserve_enqueue_if_needed("event-1", now());
    assert!(matches!(result, ReserveResult::Noop));
}

#[test]
fn test_reserve_enqueue_if_needed_enqueue_received() {
    let mut store = MemoryStore::new(100, 5, 3000, 128);
    let event = create_test_event("event-1");

    _ = store.insert_if_absent(event);

    let result = store.reserve_enqueue_if_needed("event-1", now());

    assert!(matches!(result, ReserveResult::Enqueue));

    let record = store.get("event-1").unwrap();
    assert!(record.queued);
    assert!(record.queue_time.is_some());
}

#[test]
fn test_reserve_enqueue_if_needed_idempotent() {
    let mut store = MemoryStore::new(100, 5, 3000, 128);
    let event = create_test_event("event-1");

    _ = store.insert_if_absent(event);

    let result1 = store.reserve_enqueue_if_needed("event-1", now());
    let result2 = store.reserve_enqueue_if_needed("event-1", now());

    assert!(matches!(result1, ReserveResult::Enqueue));
    assert!(matches!(result2, ReserveResult::Noop)); // Already queued, so noop

    let record = store.get("event-1").unwrap();
    assert!(record.queued);
}

#[test]
fn test_try_start_processing() {
    let mut store = MemoryStore::new(100, 5, 3000, 128);
    let event = create_test_event("event-1");

    _ = store.insert_if_absent(event);

    let result = store.try_start_processing("event-1");

    match result {
        StartResult::Start { attempt, record } => {
            assert_eq!(attempt, 1);
            assert_eq!(record.status, EventStatus::Processing);
            assert!(!record.queued);
        }
        _ => panic!("Expected Start result"),
    }

    // Verify the record was updated
    let record = store.get("event-1").unwrap();
    assert_eq!(record.status, EventStatus::Processing);
    assert_eq!(record.attempts, 1);
}

#[test]
fn test_try_start_processing_already_completed() {
    let mut store = MemoryStore::new(100, 5, 3000, 128);
    let event = create_test_event("event-1");

    let (mut record, _) = store.insert_if_absent(event);
    record.status = EventStatus::Completed;

    store.update_record_for_test(record);

    let result = store.try_start_processing("event-1");

    assert!(matches!(result, StartResult::SkipAlreadyCompleted));
}

#[test]
fn test_try_start_processing_not_found() {
    let mut store = MemoryStore::new(100, 5, 3000, 128);

    let result = store.try_start_processing("nonexistent");

    assert!(matches!(result, StartResult::NotFound));
}

#[test]
fn test_finish_processing_success() {
    let mut store = MemoryStore::new(100, 5, 3000, 128);
    let event = create_test_event("event-1");

    _ = store.insert_if_absent(event);
    let start_result = store.try_start_processing("event-1");

    let (attempt, _) = match start_result {
        StartResult::Start { attempt, record: _ } => (attempt, ""),
        _ => panic!("Expected Start result"),
    };

    let finish_result = store.finish_processing("event-1", attempt, Ok(()));

    assert!(finish_result.is_ok());

    let record = store.get("event-1").unwrap();
    assert_eq!(record.status, EventStatus::Completed);
    assert!(record.result.is_some());
}

#[test]
fn test_finish_processing_failure_with_retry() {
    let mut store = MemoryStore::new(100, 5, 3000, 128);
    let event = create_test_event("event-1");

    _ = store.insert_if_absent(event);
    let start_result = store.try_start_processing("event-1");

    let attempt = match start_result {
        StartResult::Start { attempt, record: _ } => attempt,
        _ => panic!("Expected Start result"),
    };

    let finish_result = store.finish_processing("event-1", attempt, Err("processing failed".to_string()));

    assert!(finish_result.is_ok());

    let record = store.get("event-1").unwrap();
    assert_eq!(record.status, EventStatus::FailedRetry);
    assert!(record.last_error.is_some());
    assert!(record.retry_time.is_some());
}

#[test]
fn test_finish_processing_max_retries_exceeded() {
    let mut store = MemoryStore::new(100, 2, 3000, 128); // max_retries = 2
    let event = create_test_event("event-1");

    _ = store.insert_if_absent(event);

    // Process and fail 3 times; each retry starts 500 ms after the failure,
    // past every backoff (100, 200, 400 ms).
    let mut t = now();
    for i in 1..=3 {
        let start_result = store.try_start_processing_at("event-1", t);
        let attempt = match start_result {
            StartResult::Start { attempt, record: _ } => attempt,
            _ => panic!("Expected Start result on iteration {}", i),
        };

        let _ = store.finish_processing_at("event-1", attempt, Err("failed".to_string()), t);
        t += 500;
    }

    let record = store.get("event-1").unwrap();
    assert_eq!(record.status, EventStatus::Failed); // Should be Failed after max retries
}

#[test]
fn test_finish_processing_shutdown_failure() {
    let mut store = MemoryStore::new(100, 5, 3000, 128);
    let event = create_test_event("event-1");

    _ = store.insert_if_absent(event);
    let start_result = store.try_start_processing("event-1");

    let attempt = match start_result {
        StartResult::Start { attempt, record: _ } => attempt,
        _ => panic!("Expected Start result"),
    };

    let finish_result = store.finish_processing("event-1", attempt, Err("Shutting down".to_string()));

    assert!(finish_result.is_ok());

    let record = store.get("event-1").unwrap();
    assert_eq!(record.status, EventStatus::FailedRetry);
    assert_eq!(record.last_error.as_deref(), Some("Shutting down"));
}

#[test]
fn test_list_enqueue_candidates() {
    let mut store = MemoryStore::new(100, 5, 3000, 128);

    for i in 1..=3 {
        let event = create_test_event(&format!("event-{}", i));
        _ = store.insert_if_absent(event);
    }

    let candidates = store.list_enqueue_candidates(now());

    assert_eq!(candidates.len(), 3);
}

#[test]
fn test_list_enqueue_candidates_excludes_completed() {
    let mut store = MemoryStore::new(100, 5, 3000, 128);

    let event1 = create_test_event("event-1");
    let event2 = create_test_event("event-2");

    let (mut record1, _) = store.insert_if_absent(event1);
    _ = store.insert_if_absent(event2);

    record1.status = EventStatus::Completed;
    store.update_record_for_test(record1);

    let candidates = store.list_enqueue_candidates(now());

    assert_eq!(candidates.len(), 1);
    assert_eq!(candidates[0], "event-2");
}

#[test]
fn test_list_enqueue_candidates_respects_stale_time() {
    let mut store = MemoryStore::new(100, 5, 100, 128); // 100ms stale time
    let event = create_test_event("event-1");

    _ = store.insert_if_absent(event);
    let t = now();
    store.reserve_enqueue_if_needed("event-1", t);

    let candidates = store.list_enqueue_candidates(t);
    assert_eq!(candidates.len(), 0); // Should not be re-queued immediately

    // 150 ms later the queue entry is stale
    let candidates = store.list_enqueue_candidates(t + 150);
    assert_eq!(candidates.len(), 1); // Should be available now
}

#[test]
fn test_queued_count_tracking() {
    let mut store = MemoryStore::new(100, 5, 3000, 128);

    let event1 = create_test_event("event-1");
    let event2 = create_test_event("event-2");

    _ = store.insert_if_absent(event1);
    _ = store.insert_if_absent(event2);

    assert_eq!(store.queued_count(), 0);

    store.reserve_enqueue_if_needed("event-1", now());
    assert_eq!(store.queued_count(), 1);

    store.reserve_enqueue_if_needed("event-2", now());
    assert_eq!(store.queued_count(), 2);

    // Processing should decrease queued count
    store.try_start_processing("event-1");
    assert_eq!(store.queued_count(), 1);
}

#[test]
fn test_exponential_backoff_retry_time() {
    let mut store = MemoryStore::new(100, 10, 3000, 128);
    let event = create_test_event("event-1");

    _ = store.insert_if_absent(event);
    let t = now();

    // Attempt 1
    store.try_start_processing_at("event-1", t);
    store.finish_processing_at("event-1", 1, Err("failed".to_string()), t).ok();

    let record1 = store.get("event-1").unwrap();
    let retry_time1 = record1.retry_time.unwrap();

    // 150 ms later the first backoff has passed
    let t2 = t + 150;

    // Attempt 2
    store.reserve_enqueue_if_needed("event-1", t2);
    store.try_start_processing_at("event-1", t2);
    store.finish_processing_at("event-1", 2, Err("failed".to_string()), t2).ok();

    let record2 = store.get("event-1").unwrap();
    let retry_time2 = record2.retry_time.unwrap();

    // Attempt 1 backoff: 100 * 2^0 = 100ms; attempt 2 backoff: 100 * 2^1 = 200ms
    assert!(retry_time2 > retry_time1);
    assert_eq!(retry_time1, t + 100);
    assert_eq!(retry_time2, t2 + 200);
}

#[test]
fn test_backoff_is_capped_at_thirty_seconds() {
    let mut store = MemoryStore::new(10_000, 10, 3000, 128);
    _ = store.insert_if_absent_at(create_test_event("e"), 0);
    let mut t = 0;
    let mut delays = Vec::new();
    for attempt in 1..=4 {
        assert!(matches!(store.try_start_processing_at("e", t), StartResult::Start { .. }));
        store.finish_processing_at("e", attempt, Err("failed".to_string()), t).unwrap();
        let retry = store.get("e").unwrap().retry_time.unwrap();
        delays.push(retry - t);
        t = retry;
    }
    assert_eq!(delays, vec![10_000, 20_000, 30_000, 30_000]);
}

#[test]
fn test_finish_refusals_leave_record_unchanged() {
    let mut store = MemoryStore::new(100, 5, 3000, 128);
    _ = store.insert_if_absent_at(create_test_event("e"), 10);
    // Not processing yet.
    assert!(matches!(store.finish_processing_at("e", 0, Ok(()), 11), Err(StoreError::InvalidStateTransition)));
    assert!(matches!(store.finish_processing_at("missing", 0, Ok(()), 11), Err(StoreError::NotFound)));
    assert!(matches!(store.try_start_processing_at("e", 12), StartResult::Start { attempt: 1, .. }));
    // A stale attempt number is a conflict.
    assert!(matches!(store.finish_processing_at("e", 7, Ok(()), 13), Err(StoreError::Conflict)));
    let rec = store.get("e").unwrap();
    assert_eq!(rec.status, EventStatus::Processing);
    assert_eq!(rec.updated_at, 12);
    assert_eq!(StoreError::Conflict.to_string(), "conflict");
    assert_eq!(StoreError::HashMismatch.to_string(), "hash mismatch");
    assert_eq!(StoreError::NotFound.to_string(), "not found");
    assert_eq!(StoreError::InvalidStateTransition.to_string(), "invalid state transition");
}

#[test]
fn test_failed_retry_is_claimable_only_once_due() {
    let mut store = MemoryStore::new(100, 5, 3000, 128);
    _ = store.insert_if_absent_at(create_test_event("e"), 0);
    store.try_start_processing_at("e", 0);
    store.finish_processing_at("e", 1, Err("boom".to_string()), 1_000).unwrap();
    assert!(matches!(store.try_start_processing_at("e", 1_099), StartResult::SkipNotRunnable));
    assert!(matches!(store.try_start_processing_at("e", 1_100), StartResult::Start { attempt: 2, .. }));
}

#[test]
fn test_completed_record_is_final() {
    let mut store = MemoryStore::new(100, 5, 3000, 128);
    _ = store.insert_if_absent_at(create_test_event("e"), 0);
    store.try_start_processing_at("e", 1);
    store.finish_processing_at("e", 1, Ok(()), 2).unwrap();
    let rec = store.get("e").unwrap();
    assert_eq!(rec.result.as_deref(), Some("success"));
    assert!(matches!(store.reserve_enqueue_if_needed("e", 3), ReserveResult::Noop));
    assert!(matches!(store.try_start_processing_at("e", 3), StartResult::SkipAlreadyCompleted));
    assert!(matches!(store.finish_processing_at("e", 1, Ok(()), 3), Err(StoreError::InvalidStateTransition)));
    assert_eq!(store.get("e").unwrap().updated_at, 2);
}

#[test]
fn test_shutdown_failure_is_claimable_at_once() {
    let mut store = MemoryStore::new(100, 5, 3000, 128);
    _ = store.insert_if_absent_at(create_test_event("e"), 0);
    store.try_start_processing_at("e", 10);
    store.finish_processing_at("e", 1, Err("Shutting down".to_string()), 20).unwrap();
    let rec = store.get("e").unwrap();
    assert_eq!(rec.retry_time, Some(20));
    assert!(matches!(store.try_start_processing_at("e", 20), StartResult::Start { attempt: 2, .. }));
}

#[test]
fn test_reused_id_never_overwrites() {
    let mut store = MemoryStore::new(100, 5, 3000, 128);
    let first = create_test_event("e");
    let (stored, _) = store.insert_if_absent_at(first.clone(), 1);
    let mut second = create_test_event("e");
    second.payload = json_object(&[("user_id", "someone_else")]);
    let (returned, result) = store.insert_if_absent_at(second, 2);
    assert!(matches!(result, Err(StoreError::HashMismatch)));
    assert_eq!(returned.payload_hash, stored.payload_hash);
    let now_stored = store.get("e").unwrap();
    assert_eq!(now_stored.payload_hash, first.get_hash());
    assert_eq!(now_stored.created_at, 1);
}

#[test]
fn test_candidates_in_insertion_order_and_complete_under_burst() {
    let mut store = MemoryStore::new(100, 5, 3000, 3);
    for id in ["c", "a", "d", "b"] {
        _ = store.insert_if_absent_at(create_test_event(id), 0);
    }
    store.try_start_processing_at("a", 1);
    assert_eq!(store.list_enqueue_candidates(2), vec!["c".to_string(), "d".to_string(), "b".to_string()]);
    let mut small = MemoryStore::new(100, 5, 3000, 2);
    for id in ["c", "a", "d"] {
        _ = small.insert_if_absent_at(create_test_event(id), 0);
    }
    assert_eq!(small.list_enqueue_candidates(2), vec!["c".to_string(), "a".to_string()]);
}

#[test]
fn test_failed_retry_without_retry_time_is_claimed() {
    let mut store = MemoryStore::new(100, 5, 3000, 128);
    let (mut record, _) = store.insert_if_absent_at(create_test_event("e"), 0);
    record.status = EventStatus::FailedRetry;
    record.retry_time = None;
    store.update_record_for_test(record);
    assert!(matches!(store.reserve_enqueue_if_needed("e", 5), ReserveResult::Enqueue));
    assert!(matches!(store.try_start_processing_at("e", 5), StartResult::Start { attempt: 1, .. }));
}
