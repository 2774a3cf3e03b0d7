use tokio::sync::{mpsc, watch};
use vstd::prelude::*;

use crate::clock::{now_millis, MAX_CLOCK_MS};
use crate::domain::event::{is_fresh_record, Event, EventRecord};
use crate::domain::hash::payload_hash_of;
use crate::service::channel::{offer, publish, SendOutcome};
use crate::store::memory::{reserve_outcome, MemoryStore, ReserveResult, StoreError};
use crate::store::spec::{eligible, mark_queued, StoreView};

verus! {

/// The answer to an ingestion or scheduling request.
#[derive(Debug)]
pub enum IngestResult {
    /// The queue's receiving side is gone.
    QueueError(String),
    /// The queue is at capacity; the event stays in the store for the sweeper.
    QueueFull,
    /// The store refused the event.
    StoreError(String),
    /// Accepted; `true` when the event was newly inserted.
    Accepted(bool),
}

/// Counts of what the ingestion path did, for the metrics that the
/// application publishes.
#[derive(Debug, Clone, Copy, PartialEq, Eq, Structural)]
pub struct IngestCounters {
    /// Events inserted for the first time.
    pub ingested: u64,
    /// Events received again with the same payload.
    pub deduped: u64,
    /// Event ids put into the channel.
    pub enqueued: u64,
}

/// One more, saturating at the largest `u64`.
pub open spec fn bump(n: u64) -> u64 {
    if n == u64::MAX {
        n
    } else {
        (n + 1) as u64
    }
}

/// The answer for an event that the store reserved, given what the channel
/// did with its id.
pub open spec fn scheduled_answer(inserted: bool, outcome: SendOutcome, r: IngestResult) -> bool {
    match outcome {
        SendOutcome::Sent => r == IngestResult::Accepted(inserted),
        SendOutcome::Full(_) => r is QueueFull,
        SendOutcome::Closed(m) => r matches IngestResult::QueueError(msg) && msg@
            == "Failed to enqueue: "@ + m@,
    }
}

/// What scheduling `id` at `now` does to the store and what it answers:
/// an eligible event is marked as queued and its id offered to the channel,
/// which accepts it (`Accepted`, counted as enqueued) or refuses it as full or
/// closed; any other event is left alone and `Accepted` is answered.
pub open spec fn schedule_outcome(
    pre: StoreView,
    post: StoreView,
    id: Seq<char>,
    inserted: bool,
    now: i64,
    r: IngestResult,
    counters_pre: IngestCounters,
    counters_post: IngestCounters,
) -> bool {
    if pre.records.contains_key(id) && eligible(pre.records[id], now, pre.queue_stale_time_ms) {
        &&& post == pre.put(id, mark_queued(pre.records[id], now))
        &&& {
            ||| r == IngestResult::Accepted(inserted) && counters_post == IngestCounters {
                enqueued: bump(counters_pre.enqueued),
                ..counters_pre
            }
            ||| r is QueueFull && counters_post == counters_pre
            ||| r matches IngestResult::QueueError(msg) && msg@ == "Failed to enqueue: "@ + id
                && counters_post == counters_pre
        }
    } else {
        &&& post == pre
        &&& r == IngestResult::Accepted(inserted)
        &&& counters_post == counters_pre
    }
}

/// What ingesting `event` at `now` does: a reused id with another payload
/// is refused with the store's message and nothing changes; otherwise the
/// event is counted as ingested or deduplicated, scheduled, and the stored
/// record is handed back.
pub open spec fn ingest_outcome(
    pre: StoreView,
    post: StoreView,
    event: Event,
    now: i64,
    r: (EventRecord, IngestResult),
    counters_pre: IngestCounters,
    counters_post: IngestCounters,
) -> bool {
    let id = event.event_id@;
    if pre.records.contains_key(id) {
        let existing = pre.records[id];
        if existing.payload_hash@ != payload_hash_of(event.payload.0@) {
            &&& r.0 == existing
            &&& r.1 matches IngestResult::StoreError(m) && m@ == "hash mismatch"@
            &&& post == pre
            &&& counters_post == counters_pre
        } else {
            &&& schedule_outcome(
                pre,
                post,
                id,
                false,
                now,
                r.1,
                IngestCounters { deduped: bump(counters_pre.deduped), ..counters_pre },
                counters_post,
            )
            &&& r.0 == post.records[id]
        }
    } else {
        &&& exists|fresh: EventRecord|
            #[trigger] is_fresh_record(fresh, event, now) && schedule_outcome(
                pre.put(id, fresh),
                post,
                id,
                true,
                now,
                r.1,
                IngestCounters { ingested: bump(counters_pre.ingested), ..counters_pre },
                counters_post,
            )
        &&& post.records.contains_key(id)
        &&& r.0 == post.records[id]
    }
}

/// What ingesting an event leaves to do: either the answer is settled, or
/// the id is to be offered to the work channel.
#[derive(Debug)]
pub enum IngestPlan {
    /// Nothing is to be sent; the stored record and the answer.
    Done(EventRecord, IngestResult),
    /// `id` is to be offered to the channel; `inserted` tells whether the
    /// event was new, and `record` is the stored record.
    Send { id: String, inserted: bool, record: EventRecord },
}

/// What planning the ingestion of `event` at `now` does: a reused id with
/// another payload is refused and nothing is to be sent; otherwise the event
/// is counted as new or duplicate, and when the store puts it on the queue
/// its id is to be sent, else the stored record is answered as accepted.
pub open spec fn plan_ingest_outcome(
    pre: StoreView,
    post: StoreView,
    event: Event,
    now: i64,
    r: IngestPlan,
    counters_pre: IngestCounters,
    counters_post: IngestCounters,
) -> bool {
    let id = event.event_id@;
    if pre.records.contains_key(id) {
        let existing = pre.records[id];
        if existing.payload_hash@ != payload_hash_of(event.payload.0@) {
            &&& r matches IngestPlan::Done(rec, IngestResult::StoreError(m)) && rec == existing && m@
                == "hash mismatch"@
            &&& post == pre
            &&& counters_post == counters_pre
        } else {
            &&& counters_post == IngestCounters { deduped: bump(counters_pre.deduped), ..counters_pre }
            &&& if eligible(existing, now, pre.queue_stale_time_ms) {
                &&& post == pre.put(id, mark_queued(existing, now))
                &&& r matches IngestPlan::Send { id: x, inserted, record } && x@ == id && !inserted
                    && record == post.records[id]
            } else {
                &&& post == pre
                &&& r == IngestPlan::Done(existing, IngestResult::Accepted(false))
            }
        }
    } else {
        &&& counters_post == IngestCounters { ingested: bump(counters_pre.ingested), ..counters_pre }
        &&& exists|fresh: EventRecord|
            #[trigger] is_fresh_record(fresh, event, now) && post == pre.put(id, fresh).put(
                id,
                mark_queued(fresh, now),
            )
        &&& r matches IngestPlan::Send { id: x, inserted, record } && x@ == id && inserted && record
            == post.records[id]
    }
}

/// The answer for an event that the store reserved, given what the channel
/// did with its id: accepted gives `Ok(inserted)`, full gives `QueueFull`,
/// closed gives `QueueError` naming the id that could not be sent.
pub fn schedule_answer(inserted: bool, outcome: &SendOutcome) -> (r: IngestResult)
    ensures
        scheduled_answer(inserted, *outcome, r),
{
    match outcome {
        SendOutcome::Sent => IngestResult::Accepted(inserted),
        SendOutcome::Full(_) => IngestResult::QueueFull,
        SendOutcome::Closed(m) => {
            let mut msg = String::from_str("Failed to enqueue: ");
            msg.append(m.as_str());
            IngestResult::QueueError(msg)
        },
    }
}

fn saturating_bump(n: u64) -> (r: u64)
    ensures
        r == bump(n),
{
    if n == u64::MAX {
        n
    } else {
        n + 1
    }
}

/// Bridges requests and processing: inserts events into the store, reserves
/// them, and offers their ids to the work channel.
pub struct IngestService {
    pub store: MemoryStore,
    pub tx: mpsc::Sender<String>,
    pub shutdown_tx: watch::Sender<bool>,
    pub counters: IngestCounters,
}

impl IngestService {
    /// A service over `store` that sends work on `tx` and signals shutdown
    /// on `shutdown_tx`; all counters start at zero.
    pub fn new(store: MemoryStore, tx: mpsc::Sender<String>, shutdown_tx: watch::Sender<bool>) -> (s:
        Self)
        ensures
            s.store == store,
            s.tx == tx,
            s.shutdown_tx == shutdown_tx,
            s.counters == (IngestCounters { ingested: 0, deduped: 0, enqueued: 0 }),
    {
        IngestService {
            store,
            tx,
            shutdown_tx,
            counters: IngestCounters { ingested: 0, deduped: 0, enqueued: 0 },
        }
    }

    /// Reserves `event_id` at `now`; hands the id back exactly when the
    /// store put the event on the queue, so that it is offered to the channel.
    pub fn plan_schedule(&mut self, event_id: String, now: i64) -> (r: Option<String>)
        ensures
            final(self).tx == old(self).tx,
            final(self).shutdown_tx == old(self).shutdown_tx,
            final(self).counters == old(self).counters,
            (r is Some) == (old(self).store@.records.contains_key(event_id@) && eligible(
                old(self).store@.records[event_id@],
                now,
                old(self).store@.queue_stale_time_ms,
            )),
            r is Some ==> r == Some(event_id),
            reserve_outcome(
                old(self).store@,
                final(self).store@,
                event_id@,
                now,
                if r is Some {
                    ReserveResult::Enqueue
                } else {
                    ReserveResult::Noop
                },
            ),
    {
        match self.store.reserve_enqueue_if_needed(event_id.as_str(), now) {
            ReserveResult::Noop => None,
            ReserveResult::Enqueue => Some(event_id),
        }
    }

    /// Settles the answer once the channel has dealt with an offered id:
    /// the answer of `schedule_answer`, a request to signal shutdown exactly
    /// when the channel is closed (no worker will take the work), and one
    /// more enqueued id exactly when it was accepted.
    pub fn settle_schedule(&mut self, inserted: bool, outcome: &SendOutcome) -> (r: (
        IngestResult,
        bool,
    ))
        ensures
            scheduled_answer(inserted, *outcome, r.0),
            r.1 == (outcome is Closed),
            final(self).counters == if outcome is Sent {
                IngestCounters { enqueued: bump(old(self).counters.enqueued), ..old(self).counters }
            } else {
                old(self).counters
            },
            final(self).store == old(self).store,
            final(self).tx == old(self).tx,
            final(self).shutdown_tx == old(self).shutdown_tx,
    {
        let answer = schedule_answer(inserted, outcome);
        let signal = match outcome {
            SendOutcome::Sent => {
                self.counters.enqueued = saturating_bump(self.counters.enqueued);
                false
            },
            SendOutcome::Full(_) => false,
            SendOutcome::Closed(_) => true,
        };
        (answer, signal)
    }

    /// Offers `id` to the channel, settles the answer, and signals shutdown
    /// when asked to.
    fn send_and_settle(&mut self, id: String, inserted: bool) -> (r: IngestResult)
        ensures
            final(self).store == old(self).store,
            final(self).tx == old(self).tx,
            final(self).shutdown_tx == old(self).shutdown_tx,
            exists|outcome: SendOutcome|
                {
                    &&& #[trigger] scheduled_answer(inserted, outcome, r)
                    &&& (outcome matches SendOutcome::Full(m) ==> m@ == id@)
                    &&& (outcome matches SendOutcome::Closed(m) ==> m@ == id@)
                    &&& final(self).counters == if outcome is Sent {
                        IngestCounters {
                            enqueued: bump(old(self).counters.enqueued),
                            ..old(self).counters
                        }
                    } else {
                        old(self).counters
                    }
                },
    {
        let outcome = offer(&self.tx, id);
        let (answer, signal) = self.settle_schedule(inserted, &outcome);
        if signal {
            let _ = publish(&self.shutdown_tx, true);
        }
        answer
    }

    /// Reserves `event_id` at `now` and, when the store puts it on the
    /// queue, offers the id to the channel (see `plan_schedule` and
    /// `settle_schedule`). A closed channel also signals shutdown.
    pub fn reserve_and_schedule_at(&mut self, event_id: String, inserted: bool, now: i64) -> (r:
        IngestResult)
        ensures
            final(self).tx == old(self).tx,
            final(self).shutdown_tx == old(self).shutdown_tx,
            schedule_outcome(
                old(self).store@,
                final(self).store@,
                event_id@,
                inserted,
                now,
                r,
                old(self).counters,
                final(self).counters,
            ),
    {
        match self.plan_schedule(event_id, now) {
            None => IngestResult::Accepted(inserted),
            Some(id) => self.send_and_settle(id, inserted),
        }
    }

    /// `reserve_and_schedule_at` at the current time.
    pub fn reserve_and_schedule(&mut self, event_id: String, inserted: bool) -> (r: IngestResult)
        ensures
            final(self).tx == old(self).tx,
            final(self).shutdown_tx == old(self).shutdown_tx,
            exists|now: i64|
                0 <= now <= MAX_CLOCK_MS && #[trigger] schedule_outcome(
                    old(self).store@,
                    final(self).store@,
                    event_id@,
                    inserted,
                    now,
                    r,
                    old(self).counters,
                    final(self).counters,
                ),
    {
        let now = now_millis();
        self.reserve_and_schedule_at(event_id, inserted, now)
    }

    /// Inserts `event` at `now` (idempotently), counts it as new or
    /// duplicate and reserves it; says whether its id is to be sent.
    pub fn plan_ingest(&mut self, event: Event, now: i64) -> (r: IngestPlan)
        ensures
            final(self).tx == old(self).tx,
            final(self).shutdown_tx == old(self).shutdown_tx,
            plan_ingest_outcome(
                old(self).store@,
                final(self).store@,
                event,
                now,
                r,
                old(self).counters,
                final(self).counters,
            ),
    {
        let ghost pre = self.store@;
        let ghost ev = event;
        let event_id = event.event_id.clone();
        let (record, inserted) = self.store.insert_if_absent_at(event, now);
        let inserted = match inserted {
            Ok(b) => b,
            Err(e) => {
                return IngestPlan::Done(record, IngestResult::StoreError(e.to_string()));
            },
        };
        if inserted {
            self.counters.ingested = saturating_bump(self.counters.ingested);
        } else {
            self.counters.deduped = saturating_bump(self.counters.deduped);
        }
        proof {
            if !pre.records.contains_key(ev.event_id@) {
                assert(is_fresh_record(record, ev, now));
            }
        }
        match self.plan_schedule(event_id, now) {
            None => IngestPlan::Done(record, IngestResult::Accepted(inserted)),
            Some(id) => {
                let stored = match self.store.get(id.as_str()) {
                    Ok(rec) => rec,
                    Err(_) => record,
                };
                IngestPlan::Send { id, inserted, record: stored }
            },
        }
    }

    /// Ingests `event` at `now`: plans it (see `plan_ingest`), offers the
    /// id to the channel when the plan says so, settles the answer, and
    /// hands back the stored record with the answer.
    pub fn ingest_at(&mut self, event: Event, now: i64) -> (r: (EventRecord, IngestResult))
        ensures
            final(self).tx == old(self).tx,
            final(self).shutdown_tx == old(self).shutdown_tx,
            ingest_outcome(
                old(self).store@,
                final(self).store@,
                event,
                now,
                r,
                old(self).counters,
                final(self).counters,
            ),
    {
        let ghost pre = self.store@;
        let ghost ev = event;
        match self.plan_ingest(event, now) {
            IngestPlan::Done(record, answer) => (record, answer),
            IngestPlan::Send { id, inserted, record } => {
                let answer = self.send_and_settle(id, inserted);
                proof {
                    if !pre.records.contains_key(ev.event_id@) {
                        let fresh = choose|fresh: EventRecord|
                            #[trigger] is_fresh_record(fresh, ev, now) && self.store@ == pre.put(
                                ev.event_id@,
                                fresh,
                            ).put(ev.event_id@, mark_queued(fresh, now));
                        assert(is_fresh_record(fresh, ev, now));
                    }
                }
                (record, answer)
            },
        }
    }

    /// `ingest_at` at the current time.
    pub fn ingest(&mut self, event: Event) -> (r: (EventRecord, IngestResult))
        ensures
            final(self).tx == old(self).tx,
            final(self).shutdown_tx == old(self).shutdown_tx,
            exists|now: i64|
                0 <= now <= MAX_CLOCK_MS && #[trigger] ingest_outcome(
                    old(self).store@,
                    final(self).store@,
                    event,
                    now,
                    r,
                    old(self).counters,
                    final(self).counters,
                ),
    {
        let now = now_millis();
        self.ingest_at(event, now)
    }
}

} // verus!
