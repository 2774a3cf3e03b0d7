use vstd::prelude::*;

use crate::domain::event::{Event, EventRecord};
use crate::domain::hash::payload_hash_of;
use crate::domain::state::EventStatus;
use crate::service::ingest::{
    bump, ingest_outcome, plan_ingest_outcome, IngestCounters, IngestPlan, IngestResult,
};
use crate::service::processor::{
    dispatch_next, shutdown_next, DispatchAction, DispatchEvent, ShutdownPhase,
};
use crate::store::spec::StoreView;

verus! {

/// Ingesting the same event twice at one instant: the second ingestion is
/// counted as a duplicate, answers `Accepted(false)`, hands back the same
/// record, and neither changes the store nor sends the id again.
pub proof fn law_ingest_idempotent(
    s0: StoreView,
    s1: StoreView,
    s2: StoreView,
    event: Event,
    now: i64,
    r1: (EventRecord, IngestResult),
    r2: (EventRecord, IngestResult),
    c0: IngestCounters,
    c1: IngestCounters,
    c2: IngestCounters,
)
    requires
        ingest_outcome(s0, s1, event, now, r1, c0, c1),
        ingest_outcome(s1, s2, event, now, r2, c1, c2),
        !(r1.1 is StoreError),
    ensures
        r2.1 == IngestResult::Accepted(false),
        s2 == s1,
        r2.0 == r1.0,
        c2 == (IngestCounters { deduped: bump(c1.deduped), ..c1 }),
{
}

/// Once an event has been planned at an instant, planning it again at that
/// instant sends nothing: the stored record is answered as a duplicate, or
/// the reused id is refused again. A refused event is never sent.
pub proof fn law_plan_ingest_sends_at_most_once(
    s0: StoreView,
    s1: StoreView,
    s2: StoreView,
    event: Event,
    now: i64,
    p1: IngestPlan,
    p2: IngestPlan,
    c0: IngestCounters,
    c1: IngestCounters,
    c2: IngestCounters,
)
    requires
        plan_ingest_outcome(s0, s1, event, now, p1, c0, c1),
        plan_ingest_outcome(s1, s2, event, now, p2, c1, c2),
    ensures
        p2 is Done,
        s2 == s1,
        !(p1 matches IngestPlan::Done(_, IngestResult::StoreError(_))) ==> p2 == IngestPlan::Done(
            s1.records[event.event_id@],
            IngestResult::Accepted(false),
        ),
{
}

/// A raised shutdown flag, a closed work channel and a closed worker pool
/// each stop the dispatch loop, whatever it was waiting for.
pub proof fn law_dispatch_stops(pending: Option<String>, ev: DispatchEvent, ms: u64)
    requires
        ev == DispatchEvent::ShutdownChanged(true) || ev == DispatchEvent::Received(None) || ev
            == DispatchEvent::Permit(false),
    ensures
        dispatch_next(pending, ev, ms).1 is Stop,
{
}

/// An id that the dispatch loop receives is started, once, by the next
/// worker permit, unless a change of the shutdown flag or a closed pool
/// comes first.
pub proof fn law_received_id_is_started(pending: Option<String>, id: String, ms: u64)
    ensures
        ({
            let (p1, a1) = dispatch_next(pending, DispatchEvent::Received(Some(id)), ms);
            let (p2, a2) = dispatch_next(p1, DispatchEvent::Permit(true), ms);
            &&& a1 is Continue
            &&& a2 == DispatchAction::Spawn { id, processing_ms: ms }
            &&& p2 is None
        }),
{
}

/// A shutdown finishes after at most two waits: the drain up to the
/// timeout, then the grace time of the abort.
pub proof fn law_shutdown_finishes(j1: bool, n1: usize, j2: bool, n2: usize)
    ensures
        shutdown_next(shutdown_next(ShutdownPhase::Draining, j1, n1), j2, n2) is Finished,
{
}

/// Ingesting an event again (same id, same payload hash) is counted as a
/// duplicate and schedules it like any other: when the stored record is due
/// (newly received, or failed with a retry time that is missing or not after
/// `now`) and not freshly queued (not queued, without a queue time, or queued
/// more than `queue_stale_time_ms` before `now`), it is marked as queued at
/// `now` and its id is offered to the channel. The answer is then
/// `Accepted(false)` with one more enqueued id, `QueueFull`, or a
/// `QueueError` naming the id; otherwise nothing changes and
/// `Accepted(false)` is answered. Either way the stored record is handed back.
pub proof fn law_duplicate_ingest_schedules(
    pre: StoreView,
    post: StoreView,
    event: Event,
    now: i64,
    r: (EventRecord, IngestResult),
    c0: IngestCounters,
    c1: IngestCounters,
)
    requires
        ingest_outcome(pre, post, event, now, r, c0, c1),
        pre.records.contains_key(event.event_id@),
        pre.records[event.event_id@].payload_hash@ == payload_hash_of(event.payload.0@),
    ensures
        ({
            let id = event.event_id@;
            let rec = pre.records[id];
            let dedup = if c0.deduped == u64::MAX {
                c0.deduped
            } else {
                (c0.deduped + 1) as u64
            };
            &&& c1.ingested == c0.ingested
            &&& c1.deduped == dedup
            &&& post.records.contains_key(id)
            &&& r.0 == post.records[id]
            &&& if (rec.status == EventStatus::Received || (rec.status == EventStatus::FailedRetry && (
                rec.retry_time is None || rec.retry_time.unwrap() <= now))) && (!rec.queued || rec.queue_time is None || now - rec.queue_time.unwrap()
                > pre.queue_stale_time_ms) {
                &&& post.records == pre.records.insert(
                    id,
                    EventRecord { queued: true, queue_time: Some(now), updated_at: now, ..rec },
                )
                &&& post.order == pre.order
                &&& {
                    ||| r.1 == IngestResult::Accepted(false) && c1.enqueued == if c0.enqueued
                        == u64::MAX {
                        c0.enqueued
                    } else {
                        (c0.enqueued + 1) as u64
                    }
                    ||| r.1 is QueueFull && c1.enqueued == c0.enqueued
                    ||| r.1 matches IngestResult::QueueError(m) && m@ == "Failed to enqueue: "@
                        + id && c1.enqueued == c0.enqueued
                }
            } else {
                &&& post == pre
                &&& r.1 == IngestResult::Accepted(false)
                &&& c1.enqueued == c0.enqueued
            }
        }),
{
}

/// Planning a duplicate (same id, same payload hash) is counted as such and,
/// when the stored record is due and not freshly queued (as in
/// `law_duplicate_ingest_schedules`), marks it as queued at `now` and plans
/// to send its id, as not newly inserted; otherwise nothing changes and the
/// stored record is answered as accepted.
pub proof fn law_duplicate_plan_sends(
    pre: StoreView,
    post: StoreView,
    event: Event,
    now: i64,
    r: IngestPlan,
    c0: IngestCounters,
    c1: IngestCounters,
)
    requires
        plan_ingest_outcome(pre, post, event, now, r, c0, c1),
        pre.records.contains_key(event.event_id@),
        pre.records[event.event_id@].payload_hash@ == payload_hash_of(event.payload.0@),
    ensures
        ({
            let id = event.event_id@;
            let rec = pre.records[id];
            &&& c1.ingested == c0.ingested
            &&& c1.enqueued == c0.enqueued
            &&& c1.deduped == if c0.deduped == u64::MAX {
                c0.deduped
            } else {
                (c0.deduped + 1) as u64
            }
            &&& if (rec.status == EventStatus::Received || (rec.status == EventStatus::FailedRetry && (
                rec.retry_time is None || rec.retry_time.unwrap() <= now))) && (!rec.queued || rec.queue_time is None || now - rec.queue_time.unwrap()
                > pre.queue_stale_time_ms) {
                let queued = EventRecord {
                    queued: true,
                    queue_time: Some(now),
                    updated_at: now,
                    ..rec
                };
                &&& post.records == pre.records.insert(id, queued)
                &&& post.order == pre.order
                &&& r matches IngestPlan::Send { id: x, inserted, record } && x@ == id && !inserted
                    && record == queued
            } else {
                &&& post == pre
                &&& r == IngestPlan::Done(rec, IngestResult::Accepted(false))
            }
        }),
{
}

} // verus!
