use tokio::sync::{mpsc, watch};

use eventful::domain::{Event, EventPayload, EventStatus, EventType};
use eventful::http::post_events_reply;
use eventful::service::handler::worker_result;
use eventful::service::processor::{
    dispatch_step, shutdown_step, shutdown_wait_ms, tally_join, DispatchAction, DispatchEvent, Dispatcher,
    ShutdownOutcome, ShutdownPhase,
};
use eventful::service::{IngestPlan, IngestResult, IngestService, SendOutcome, Sweeper};
use eventful::service::ingest::schedule_answer;
use eventful::store::MemoryStore;

fn json_object(members: &[(&str, &str)]) -> EventPayload {
    let mut map = serde_json::Map::new();
    for (k, v) in members {
        map.insert(k.to_string(), serde_json::Value::String(v.to_string()));
    }
    EventPayload(serde_json::to_string(&serde_json::Value::Object(map)).unwrap())
}

fn now() -> i64 {
    chrono::Utc::now().timestamp_millis()
}

fn create_test_event(event_id: &str) -> Event {
    Event {
        event_id: event_id.to_string(),
        event_type: EventType::UserLoginFailed,
        occurred_at: now(),
        payload: json_object(&[("user_id", "test_user")]),
    }
}

fn create_test_service(queue_capacity: usize) -> (IngestService, mpsc::Receiver<String>) {
    let store = MemoryStore::new(100, 5, 3000, 128);
    let (tx, rx) = mpsc::channel(queue_capacity);
    let (shutdown_tx, _) = watch::channel(false);
    let service = IngestService::new(store, tx, shutdown_tx);
    (service, rx)
}

#[test]
fn test_ingest_new_event() {
    let (mut service, mut rx) = create_test_service(10);
    let event = create_test_event("event-1");

    let (record, result) = service.ingest(event.clone());

    assert!(matches!(result, IngestResult::Accepted(true))); // new event
    assert_eq!(record.event.event_id, "event-1");
    assert_eq!(record.status, EventStatus::Received);

    // Event should be enqueued
    let enqueued_id = rx.try_recv().expect("nothing enqueued");
    assert_eq!(enqueued_id, "event-1");
}

#[test]
fn test_ingest_duplicate_event() {
    let (mut service, mut rx) = create_test_service(10);
    let event = create_test_event("event-1");

    let (record1, result1) = service.ingest(event.clone());
    let (record2, result2) = service.ingest(event);

    assert!(matches!(result1, IngestResult::Accepted(true))); // first is new
    assert!(matches!(result2, IngestResult::Accepted(false))); // second is duplicate
    assert_eq!(record1.event.event_id, record2.event.event_id);

    // Only one message should be enqueued
    let enqueued_id = rx.try_recv().expect("nothing enqueued");
    assert_eq!(enqueued_id, "event-1");

    // No second message
    assert!(rx.try_recv().is_err());
}

#[test]
fn test_ingest_queue_full() {
    let (mut service, _rx) = create_test_service(1); // Small queue
    let event1 = create_test_event("event-1");
    let event2 = create_test_event("event-2");

    let (_record1, result1) = service.ingest(event1);
    assert!(matches!(result1, IngestResult::Accepted(true)));

    // Without consuming from rx, queue is now full (capacity 1, 1 message queued)
    let (_record2, result2) = service.ingest(event2);

    assert!(matches!(result2, IngestResult::QueueFull));
}

#[test]
fn test_ingest_hash_mismatch() {
    let (mut service, _rx) = create_test_service(10);
    let event1 = Event {
        event_id: "event-1".to_string(),
        event_type: EventType::UserLoginFailed,
        occurred_at: now(),
        payload: json_object(&[("user_id", "user1")]),
    };
    let event2 = Event {
        event_id: "event-1".to_string(), // same ID
        event_type: EventType::UserLoginFailed,
        occurred_at: now(),
        payload: json_object(&[("user_id", "user2")]), // different payload
    };

    let (_record1, result1) = service.ingest(event1);
    let (_record2, result2) = service.ingest(event2);

    assert!(matches!(result1, IngestResult::Accepted(true)));
    assert!(matches!(result2, IngestResult::StoreError(_)));
}

#[test]
fn test_ingest_multiple_events_in_sequence() {
    let (mut service, mut rx) = create_test_service(10);

    for i in 1..=5 {
        let event = create_test_event(&format!("event-{}", i));
        let (_record, result) = service.ingest(event);
        assert!(matches!(result, IngestResult::Accepted(true)));
    }

    // All events should be enqueued
    for i in 1..=5 {
        let enqueued_id = rx.try_recv().expect("nothing enqueued");
        assert_eq!(enqueued_id, format!("event-{}", i));
    }
}

#[test]
fn test_reserve_and_schedule_noop_for_completed() {
    let (mut service, _rx) = create_test_service(10);
    let event = create_test_event("event-1");

    let (mut record, _) = service.store.insert_if_absent(event);
    record.status = EventStatus::Completed;

    service.store.update_record_for_test(record);

    let result = service.reserve_and_schedule("event-1".to_string(), false);

    assert!(matches!(result, IngestResult::Accepted(false)));
}

#[test]
fn test_idempotent_ingestion() {
    let (mut service, mut rx) = create_test_service(10);
    let event = create_test_event("event-1");

    let (_record1, result1) = service.ingest(event.clone());
    let (_record2, result2) = service.ingest(event.clone());
    let (_record3, result3) = service.ingest(event);

    assert!(matches!(result1, IngestResult::Accepted(true))); // new
    assert!(matches!(result2, IngestResult::Accepted(false))); // duplicate
    assert!(matches!(result3, IngestResult::Accepted(false))); // duplicate

    // Only one message in queue
    let id = rx.try_recv().unwrap();
    assert_eq!(id, "event-1");
    assert!(rx.try_recv().is_err());
}

#[test]
fn test_telemetry_metrics_updated() {
    let (mut service, _rx) = create_test_service(10);

    let event1 = create_test_event("event-1");
    let event2 = create_test_event("event-2");

    service.ingest(event1);
    service.ingest(event2.clone());
    service.ingest(event2); // duplicate

    assert_eq!(service.counters.ingested, 2);
    assert_eq!(service.counters.deduped, 1);
    assert_eq!(service.counters.enqueued, 2);
}

#[test]
fn test_closed_queue_reports_error_and_signals_shutdown() {
    let store = MemoryStore::new(100, 5, 3000, 128);
    let (tx, rx) = mpsc::channel::<String>(4);
    drop(rx);
    let (shutdown_tx, shutdown_rx) = watch::channel(false);
    let mut service = IngestService::new(store, tx, shutdown_tx);
    let (record, result) = service.ingest(create_test_event("event-9"));
    match result {
        IngestResult::QueueError(msg) => assert_eq!(msg, "Failed to enqueue: event-9"),
        other => panic!("unexpected {:?}", other),
    }
    assert!(record.queued);
    assert!(*shutdown_rx.borrow());
    assert_eq!(service.counters.enqueued, 0);
}

#[test]
fn test_schedule_answer_for_each_outcome() {
    assert!(matches!(schedule_answer(true, &SendOutcome::Sent), IngestResult::Accepted(true)));
    assert!(matches!(schedule_answer(false, &SendOutcome::Full("x".to_string())), IngestResult::QueueFull));
    match schedule_answer(false, &SendOutcome::Closed("abc".to_string())) {
        IngestResult::QueueError(m) => assert_eq!(m, "Failed to enqueue: abc"),
        other => panic!("unexpected {:?}", other),
    }
}

#[test]
fn test_sweeper_requeues_stale_and_due_events() {
    let store = MemoryStore::new(100, 5, 1_000, 128);
    let (tx, mut rx) = mpsc::channel(16);
    let (shutdown_tx, _) = watch::channel(false);
    let mut service = IngestService::new(store, tx, shutdown_tx);
    let t = 1_000_000;
    service.ingest_at(create_test_event("a"), t);
    service.ingest_at(create_test_event("b"), t);
    assert_eq!(rx.try_recv().unwrap(), "a");
    assert_eq!(rx.try_recv().unwrap(), "b");
    let sweeper = Sweeper::new(250);
    assert_eq!(sweeper.sweeper_interval_ms(), 250);
    // Within the stale time nothing is offered again.
    sweeper.sweep_at(&mut service, t + 500);
    assert!(rx.try_recv().is_err());
    // Past it, both queue entries are stale and are offered again.
    sweeper.sweep_at(&mut service, t + 1_001);
    assert_eq!(rx.try_recv().unwrap(), "a");
    assert_eq!(rx.try_recv().unwrap(), "b");
    assert_eq!(service.store.get("a").unwrap().queue_time, Some(t + 1_001));
    assert_eq!(service.counters.enqueued, 4);
}

#[test]
fn test_post_events_reply_texts() {
    let (mut service, _rx) = create_test_service(10);
    let (rec, result) = service.ingest(create_test_event("event-1"));
    let (code, body) = post_events_reply(&rec, &result);
    assert_eq!(code, 202);
    assert_eq!(body, "event_id: event-1, status: Received, attempts: 0, inserted: true");
    assert_eq!(post_events_reply(&rec, &IngestResult::QueueFull), (429, "queue is full".to_string()));
    assert_eq!(
        post_events_reply(&rec, &IngestResult::StoreError("hash mismatch".to_string())),
        (409, "event already exists with different payload hash".to_string())
    );
    assert_eq!(
        post_events_reply(&rec, &IngestResult::QueueError("gone".to_string())),
        (503, "queue error: gone".to_string())
    );
    let mut later = rec.clone();
    later.attempts = 1234;
    later.status = EventStatus::FailedRetry;
    assert_eq!(
        post_events_reply(&later, &IngestResult::Accepted(false)).1,
        "event_id: event-1, status: FailedRetry, attempts: 1234, inserted: false"
    );
}

#[test]
fn test_worker_results() {
    let plain = json_object(&[("user_id", "u")]);
    let failing = EventPayload("{\"fail\":true,\"user_id\":\"u\"}".to_string());
    let not_bool = EventPayload("{\"fail\":\"yes\"}".to_string());
    let not_json = EventPayload("fail".to_string());
    assert_eq!(worker_result(true, &plain), Err("Shutting down".to_string()));
    assert_eq!(worker_result(true, &failing), Err("Shutting down".to_string()));
    assert_eq!(worker_result(false, &failing), Err("Simulated failure".to_string()));
    assert_eq!(worker_result(false, &plain), Ok(()));
    assert_eq!(worker_result(false, &not_bool), Ok(()));
    assert_eq!(worker_result(false, &not_json), Ok(()));
    assert_eq!(worker_result(false, &EventPayload("{\"fail\":false}".to_string())), Ok(()));
}

#[test]
fn test_dispatch_steps() {
    let (p, a) = dispatch_step(None, DispatchEvent::Received(Some("e1".to_string())), 20);
    assert_eq!(p.as_deref(), Some("e1"));
    assert!(matches!(a, DispatchAction::Continue));
    let (p, a) = dispatch_step(p, DispatchEvent::ShutdownChanged(false), 20);
    assert!(p.is_none());
    assert!(matches!(a, DispatchAction::Continue));
    let (p, a) = dispatch_step(p, DispatchEvent::Permit(true), 20);
    assert!(p.is_none());
    assert!(matches!(a, DispatchAction::Continue));
    let (p, _) = dispatch_step(p, DispatchEvent::Received(Some("e1".to_string())), 20);
    let (p, a) = dispatch_step(p, DispatchEvent::Permit(true), 20);
    assert!(p.is_none());
    match a {
        DispatchAction::Spawn { id, processing_ms } => {
            assert_eq!(id, "e1");
            assert_eq!(processing_ms, 20);
        }
        other => panic!("unexpected {:?}", other),
    }
    assert!(matches!(dispatch_step(None, DispatchEvent::ShutdownChanged(true), 20).1, DispatchAction::Stop));
    assert!(matches!(dispatch_step(None, DispatchEvent::Received(None), 20).1, DispatchAction::Stop));
    assert!(matches!(dispatch_step(Some("x".to_string()), DispatchEvent::Permit(false), 20).1, DispatchAction::Stop));
}

#[test]
fn test_dispatcher_draws_processing_time_in_range() {
    for _ in 0..50 {
        let mut d = Dispatcher::new();
        assert!(!d.has_pending());
        assert!(matches!(d.step(DispatchEvent::Received(Some("e".to_string()))), DispatchAction::Continue));
        assert!(d.has_pending());
        match d.step(DispatchEvent::Permit(true)) {
            DispatchAction::Spawn { id, processing_ms } => {
                assert_eq!(id, "e");
                assert!((15..45).contains(&processing_ms));
            }
            other => panic!("unexpected {:?}", other),
        }
        assert!(!d.has_pending());
    }
}

#[test]
fn test_shutdown_phases() {
    assert_eq!(shutdown_wait_ms(ShutdownPhase::Draining, 10_000), Some(10_000));
    assert_eq!(shutdown_wait_ms(ShutdownPhase::Aborting, 10_000), Some(100));
    assert_eq!(shutdown_step(ShutdownPhase::Draining, true, 0), ShutdownPhase::Finished(ShutdownOutcome::Graceful));
    assert_eq!(shutdown_step(ShutdownPhase::Draining, false, 0), ShutdownPhase::Finished(ShutdownOutcome::NothingLeft));
    assert_eq!(shutdown_step(ShutdownPhase::Draining, false, 3), ShutdownPhase::Aborting);
    assert_eq!(shutdown_step(ShutdownPhase::Aborting, true, 0), ShutdownPhase::Finished(ShutdownOutcome::Aborted));
    assert_eq!(shutdown_step(ShutdownPhase::Aborting, false, 2), ShutdownPhase::Finished(ShutdownOutcome::Forced(2)));
    let done = ShutdownPhase::Finished(ShutdownOutcome::Aborted);
    assert_eq!(shutdown_wait_ms(done, 10_000), None);
    assert_eq!(tally_join((0, 0), true, false), (1, 0));
    assert_eq!(tally_join((1, 0), false, true), (1, 1));
    assert_eq!(tally_join((1, 1), false, false), (1, 1));
    assert_eq!(tally_join((u64::MAX, 0), true, false), (u64::MAX, 0));
}

#[test]
fn test_plan_ingest_and_settle() {
    let (mut service, _rx) = create_test_service(10);
    match service.plan_ingest(create_test_event("p"), 1_000) {
        IngestPlan::Send { id, inserted, record } => {
            assert_eq!(id, "p");
            assert!(inserted);
            assert!(record.queued);
            assert_eq!(record.queue_time, Some(1_000));
        }
        other => panic!("unexpected {:?}", other),
    }
    // Planned again at the same instant: nothing to send.
    assert!(matches!(service.plan_ingest(create_test_event("p"), 1_000), IngestPlan::Done(_, IngestResult::Accepted(false))));
    let (answer, signal) = service.settle_schedule(true, &SendOutcome::Closed("p".to_string()));
    assert!(signal);
    assert!(matches!(answer, IngestResult::QueueError(_)));
    let before = service.counters.enqueued;
    let (answer, signal) = service.settle_schedule(false, &SendOutcome::Sent);
    assert!(!signal);
    assert!(matches!(answer, IngestResult::Accepted(false)));
    assert_eq!(service.counters.enqueued, before + 1);
    assert_eq!(service.plan_schedule("p".to_string(), 1_000), None);
    assert_eq!(service.plan_schedule("p".to_string(), 4_001), Some("p".to_string()));
    assert_eq!(service.plan_schedule("missing".to_string(), 4_001), None);
}
