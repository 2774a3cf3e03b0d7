use vstd::prelude::*;

use crate::domain::event::EventRecord;
use crate::domain::state::EventStatus;

verus! {

/// The longest delay before a retry, in milliseconds (thirty seconds).
pub const MAX_BACKOFF_MS: u64 = 30_000;

/// The error text with which a worker that is stopped by a shutdown finishes
/// its event; such an event is retried at once.
pub open spec fn shutdown_reason() -> Seq<char> {
    "Shutting down"@
}

/// The result recorded for an event whose processing succeeded.
pub open spec fn success_result() -> Seq<char> {
    "success"@
}

/// An abstract picture of a store: the records by event id, the ids in the
/// order they were inserted, and the configuration.
pub struct StoreView {
    pub records: Map<Seq<char>, EventRecord>,
    pub order: Seq<Seq<char>>,
    pub base_backoff_ms: u64,
    pub max_retries: u32,
    pub queue_stale_time_ms: u64,
    pub burst_size: usize,
}

/// A record that the store can hold: one that is being processed has been
/// claimed at least once.
pub open spec fn record_consistent(r: EventRecord) -> bool {
    r.status == EventStatus::Processing ==> r.attempts >= 1
}

impl StoreView {
    /// The store's invariant: each id is listed once, the listed ids are
    /// exactly the stored ones, each record sits under its own event id, and
    /// each record is consistent.
    pub open spec fn wf(self) -> bool {
        &&& forall|i: int, j: int|
            0 <= i < j < self.order.len() ==> self.order[i] != self.order[j]
        &&& forall|i: int| 0 <= i < self.order.len() ==> self.records.contains_key(#[trigger] self.order[i])
        &&& forall|k: Seq<char>| #[trigger] self.records.contains_key(k) ==> self.order.contains(k)
        &&& forall|k: Seq<char>| #[trigger]
            self.records.contains_key(k) ==> self.records[k].event.event_id@ == k
        &&& forall|k: Seq<char>| #[trigger]
            self.records.contains_key(k) ==> record_consistent(self.records[k])
    }

    /// The same store with `id` bound to `r`; a new id goes to the end of
    /// the insertion order.
    pub open spec fn put(self, id: Seq<char>, r: EventRecord) -> StoreView {
        StoreView {
            records: self.records.insert(id, r),
            order: if self.records.contains_key(id) {
                self.order
            } else {
                self.order.push(id)
            },
            ..self
        }
    }
}

/// An event that may be (re)processed at `now`, that is, queued and claimed:
/// newly received, or failed with a retry time that has come (a missing
/// retry time counts as come).
pub open spec fn runnable(r: EventRecord, now: i64) -> bool {
    ||| r.status == EventStatus::Received
    ||| r.status == EventStatus::FailedRetry && match r.retry_time {
        None => true,
        Some(t) => t <= now,
    }
}

/// An event that may be put on the queue at `now`: not queued, or queued
/// longer than `stale_ms` ago (a missing queue time counts as stale).
pub open spec fn enqueueable(r: EventRecord, now: i64, stale_ms: u64) -> bool {
    ||| !r.queued
    ||| match r.queue_time {
        None => true,
        Some(q) => now - q > stale_ms,
    }
}

/// An event that the sweeper and the ingestion path schedule at `now`.
pub open spec fn eligible(r: EventRecord, now: i64, stale_ms: u64) -> bool {
    runnable(r, now) && enqueueable(r, now, stale_ms)
}

/// The record once it has been put on the queue at `now`.
pub open spec fn mark_queued(r: EventRecord, now: i64) -> EventRecord {
    EventRecord { queued: true, queue_time: Some(now), updated_at: now, ..r }
}

/// One more attempt, saturating at the largest `u32`.
pub open spec fn next_attempt(a: u32) -> u32 {
    if a == u32::MAX {
        a
    } else {
        (a + 1) as u32
    }
}

/// The record once a worker has claimed it at `now`.
pub open spec fn claimed(r: EventRecord, now: i64) -> EventRecord {
    EventRecord {
        status: EventStatus::Processing,
        attempts: next_attempt(r.attempts),
        updated_at: now,
        queued: false,
        queue_time: None,
        ..r
    }
}

/// Two to the power `e`.
pub open spec fn two_pow(e: nat) -> nat
    decreases e,
{
    if e == 0 {
        1
    } else {
        2 * two_pow((e - 1) as nat)
    }
}

/// Powers of two grow with the exponent.
pub proof fn lemma_two_pow_monotone(a: nat, b: nat)
    requires
        a <= b,
    ensures
        1 <= two_pow(a) <= two_pow(b),
    decreases b,
{
    if b == 0 {
    } else if a == b {
        lemma_two_pow_monotone(0, (b - 1) as nat);
    } else {
        lemma_two_pow_monotone(a, (b - 1) as nat);
    }
}

/// The delay before the retry that follows `retries_used` earlier retries:
/// the base delay doubled once per retry used, capped at thirty seconds.
pub open spec fn backoff_ms(base_ms: u64, retries_used: nat) -> int {
    let d = base_ms * two_pow(retries_used);
    if d < MAX_BACKOFF_MS {
        d
    } else {
        MAX_BACKOFF_MS as int
    }
}

/// `new` is `old` completed at `now`, with the success result recorded.
pub open spec fn completed_from(new: EventRecord, old: EventRecord, now: i64) -> bool {
    &&& new == EventRecord {
        status: EventStatus::Completed,
        result: new.result,
        updated_at: now,
        ..old
    }
    &&& new.result matches Some(v) && v@ == success_result()
}

/// `new` is `old` failed at `now` with error `err`: retried at once after a
/// shutdown; failed for good once `max_retries` retries are used; otherwise
/// retried after the backoff delay.
pub open spec fn failed_from(
    new: EventRecord,
    old: EventRecord,
    err: String,
    now: i64,
    base_ms: u64,
    max_retries: u32,
) -> bool {
    if err@ == shutdown_reason() {
        new == EventRecord {
            status: EventStatus::FailedRetry,
            retry_time: Some(now),
            last_error: Some(err),
            updated_at: now,
            ..old
        }
    } else if old.attempts - 1 >= max_retries {
        new == EventRecord {
            status: EventStatus::Failed,
            last_error: Some(err),
            updated_at: now,
            ..old
        }
    } else {
        new == EventRecord {
            status: EventStatus::FailedRetry,
            retry_time: Some((now + backoff_ms(base_ms, (old.attempts - 1) as nat)) as i64),
            last_error: Some(err),
            updated_at: now,
            ..old
        }
    }
}

/// The ids of `ids` whose records are eligible at `now`, in order.
pub open spec fn eligible_ids(
    ids: Seq<Seq<char>>,
    records: Map<Seq<char>, EventRecord>,
    now: i64,
    stale_ms: u64,
) -> Seq<Seq<char>>
    decreases ids.len(),
{
    if ids.len() == 0 {
        Seq::empty()
    } else {
        let prev = eligible_ids(ids.drop_last(), records, now, stale_ms);
        if eligible(records[ids.last()], now, stale_ms) {
            prev.push(ids.last())
        } else {
            prev
        }
    }
}

/// The eligible ids of a prefix of `ids` lead the eligible ids of `ids`.
pub proof fn lemma_eligible_ids_prefix(
    ids: Seq<Seq<char>>,
    records: Map<Seq<char>, EventRecord>,
    now: i64,
    stale_ms: u64,
    i: int,
)
    requires
        0 <= i <= ids.len(),
    ensures
        eligible_ids(ids.take(i), records, now, stale_ms).len() <= eligible_ids(
            ids,
            records,
            now,
            stale_ms,
        ).len(),
        eligible_ids(ids.take(i), records, now, stale_ms) =~= eligible_ids(
            ids,
            records,
            now,
            stale_ms,
        ).take(eligible_ids(ids.take(i), records, now, stale_ms).len() as int),
    decreases ids.len(),
{
    if i == ids.len() {
        assert(ids.take(i) =~= ids);
    } else {
        assert(ids.drop_last().take(i) =~= ids.take(i));
        lemma_eligible_ids_prefix(ids.drop_last(), records, now, stale_ms, i);
    }
}

/// Every id that `eligible_ids` keeps is one of `ids` and is eligible; when
/// `ids` lists each id once, so does the result.
pub proof fn lemma_eligible_ids_members(
    ids: Seq<Seq<char>>,
    records: Map<Seq<char>, EventRecord>,
    now: i64,
    stale_ms: u64,
)
    ensures
        forall|k: int|
            0 <= k < eligible_ids(ids, records, now, stale_ms).len() ==> {
                let x = #[trigger] eligible_ids(ids, records, now, stale_ms)[k];
                &&& ids.contains(x)
                &&& eligible(records[x], now, stale_ms)
            },
        (forall|a: int, b: int| 0 <= a < b < ids.len() ==> ids[a] != ids[b]) ==> forall|a: int, b: int|
            0 <= a < b < eligible_ids(ids, records, now, stale_ms).len() ==> eligible_ids(
                ids,
                records,
                now,
                stale_ms,
            )[a] != eligible_ids(ids, records, now, stale_ms)[b],
    decreases ids.len(),
{
    if ids.len() > 0 {
        let prev = eligible_ids(ids.drop_last(), records, now, stale_ms);
        lemma_eligible_ids_members(ids.drop_last(), records, now, stale_ms);
        let res = eligible_ids(ids, records, now, stale_ms);
        assert forall|k: int| 0 <= k < res.len() implies ids.contains(#[trigger] res[k]) && eligible(
            records[res[k]],
            now,
            stale_ms,
        ) by {
            if k < prev.len() {
                assert(res[k] == prev[k]);
                let j = choose|j: int| 0 <= j < ids.drop_last().len() && ids.drop_last()[j] == prev[k];
                assert(ids[j] == prev[k]);
            } else {
                assert(res[k] == ids.last());
                assert(ids[ids.len() - 1] == ids.last());
            }
        }
        if forall|a: int, b: int| 0 <= a < b < ids.len() ==> ids[a] != ids[b] {
            assert(forall|a: int, b: int|
                0 <= a < b < ids.drop_last().len() ==> ids.drop_last()[a] != ids.drop_last()[b]);
            assert forall|a: int, b: int| 0 <= a < b < res.len() implies res[a] != res[b] by {
                if b >= prev.len() {
                    assert(res[b] == ids.last());
                    assert(res[a] == prev[a]);
                    assert(ids.drop_last().contains(prev[a]));
                    let j = choose|j: int| 0 <= j < ids.drop_last().len() && ids.drop_last()[j] == prev[a];
                    assert(ids[j] == prev[a]);
                    assert(ids[ids.len() - 1] == ids.last());
                } else {
                    assert(res[a] == prev[a]);
                    assert(res[b] == prev[b]);
                }
            }
        }
    }
}

/// The store once each of `ids`, in turn, has been marked as queued at `now`.
pub open spec fn mark_all_queued(v: StoreView, ids: Seq<Seq<char>>, now: i64) -> StoreView
    decreases ids.len(),
{
    if ids.len() == 0 {
        v
    } else {
        let w = mark_all_queued(v, ids.drop_last(), now);
        w.put(ids.last(), mark_queued(w.records[ids.last()], now))
    }
}

/// At most `limit` of the first elements of `s`.
pub open spec fn take_at_most<A>(s: Seq<A>, limit: nat) -> Seq<A> {
    if s.len() <= limit {
        s
    } else {
        s.take(limit as int)
    }
}

/// The candidates the store offers at `now`: the first `burst_size` eligible
/// ids in insertion order.
pub open spec fn enqueue_candidates(v: StoreView, now: i64) -> Seq<Seq<char>> {
    take_at_most(
        eligible_ids(v.order, v.records, now, v.queue_stale_time_ms),
        v.burst_size as nat,
    )
}

/// The number of ids of `ids` whose records are queued.
pub open spec fn count_queued(ids: Seq<Seq<char>>, records: Map<Seq<char>, EventRecord>) -> nat
    decreases ids.len(),
{
    if ids.len() == 0 {
        0
    } else {
        count_queued(ids.drop_last(), records) + if records[ids.last()].queued {
            1nat
        } else {
            0nat
        }
    }
}

} // verus!
