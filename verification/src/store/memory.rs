use vstd::hash_map::StringHashMap;
use vstd::prelude::*;

use crate::clock::{now_millis, MAX_CLOCK_MS};
use crate::domain::event::{is_fresh_record, spells, Event, EventRecord};
use crate::domain::hash::payload_hash_of;
use crate::domain::state::EventStatus;
use crate::store::spec::{
    backoff_ms, claimed, completed_from, count_queued, eligible, eligible_ids, enqueue_candidates,
    enqueueable, failed_from, lemma_eligible_ids_prefix, lemma_two_pow_monotone, mark_queued,
    next_attempt, record_consistent, runnable, two_pow, StoreView, MAX_BACKOFF_MS,
};

verus! {

/// Why a store operation was refused.
#[derive(Debug, Clone, Copy, PartialEq, Eq, Structural)]
pub enum StoreError {
    NotFound,
    InvalidStateTransition,
    HashMismatch,
    Conflict,
}

/// The message of a store error.
pub open spec fn store_error_message(e: StoreError) -> Seq<char> {
    match e {
        StoreError::NotFound => "not found"@,
        StoreError::InvalidStateTransition => "invalid state transition"@,
        StoreError::HashMismatch => "hash mismatch"@,
        StoreError::Conflict => "conflict"@,
    }
}

impl StoreError {
    /// The error's message.
    pub fn to_string(&self) -> (r: String)
        ensures
            r@ == store_error_message(*self),
    {
        let s = match self {
            StoreError::NotFound => "not found",
            StoreError::InvalidStateTransition => "invalid state transition",
            StoreError::HashMismatch => "hash mismatch",
            StoreError::Conflict => "conflict",
        };
        String::from_str(s)
    }
}

/// Whether an event was just put on the queue.
#[derive(Debug, Clone, Copy, PartialEq, Eq, Structural)]
pub enum ReserveResult {
    Noop,
    Enqueue,
}

/// The outcome of a worker's claim on an event.
#[derive(Debug)]
pub enum StartResult {
    Start { attempt: u32, record: EventRecord },
    SkipAlreadyCompleted,
    SkipNotRunnable,
    NotFound,
}

/// What inserting `event` at `now` does: an id that is stored keeps its
/// record, which is handed back with `Ok(false)` when its payload hash
/// matches and `HashMismatch` otherwise; a new id gets a fresh record.
pub open spec fn insert_outcome(
    pre: StoreView,
    post: StoreView,
    event: Event,
    now: i64,
    res: (EventRecord, Result<bool, StoreError>),
) -> bool {
    if pre.records.contains_key(event.event_id@) {
        let existing = pre.records[event.event_id@];
        &&& res.0 == existing
        &&& post == pre
        &&& res.1 == if existing.payload_hash@ == payload_hash_of(event.payload.0@) {
            Ok::<bool, StoreError>(false)
        } else {
            Err::<bool, StoreError>(StoreError::HashMismatch)
        }
    } else {
        &&& is_fresh_record(res.0, event, now)
        &&& res.1 == Ok::<bool, StoreError>(true)
        &&& post == pre.put(event.event_id@, res.0)
    }
}

/// What a worker's claim on `id` at `now` does.
pub open spec fn start_outcome(
    pre: StoreView,
    post: StoreView,
    id: Seq<char>,
    now: i64,
    r: StartResult,
) -> bool {
    if !pre.records.contains_key(id) {
        r is NotFound && post == pre
    } else {
        let rec = pre.records[id];
        if rec.status == EventStatus::Completed {
            r is SkipAlreadyCompleted && post == pre
        } else if runnable(rec, now) {
            &&& r == StartResult::Start {
                attempt: next_attempt(rec.attempts),
                record: claimed(rec, now),
            }
            &&& post == pre.put(id, claimed(rec, now))
        } else {
            r is SkipNotRunnable && post == pre
        }
    }
}

/// What reserving `id` for the queue at `now` does: an eligible event is
/// marked as queued and `Enqueue` is answered; anything else is a no-op.
pub open spec fn reserve_outcome(
    pre: StoreView,
    post: StoreView,
    id: Seq<char>,
    now: i64,
    r: ReserveResult,
) -> bool {
    if pre.records.contains_key(id) && eligible(pre.records[id], now, pre.queue_stale_time_ms) {
        r == ReserveResult::Enqueue && post == pre.put(id, mark_queued(pre.records[id], now))
    } else {
        r == ReserveResult::Noop && post == pre
    }
}

/// What finishing attempt `attempt` of `id` with `result` at `now` does:
/// only the current attempt of an event that is being processed is
/// finished; it completes on success and fails (see `failed_from`) on an
/// error. Every refusal leaves the store as it was.
pub open spec fn finish_outcome(
    pre: StoreView,
    post: StoreView,
    id: Seq<char>,
    attempt: u32,
    result: Result<(), String>,
    now: i64,
    r: Result<(), StoreError>,
) -> bool {
    if !pre.records.contains_key(id) {
        r == Err::<(), StoreError>(StoreError::NotFound) && post == pre
    } else if pre.records[id].status != EventStatus::Processing {
        r == Err::<(), StoreError>(StoreError::InvalidStateTransition) && post == pre
    } else if pre.records[id].attempts != attempt {
        r == Err::<(), StoreError>(StoreError::Conflict) && post == pre
    } else {
        &&& r == Ok::<(), StoreError>(())
        &&& post.records.contains_key(id)
        &&& post == pre.put(id, post.records[id])
        &&& match result {
            Ok(()) => completed_from(post.records[id], pre.records[id], now),
            Err(e) => failed_from(
                post.records[id],
                pre.records[id],
                e,
                now,
                pre.base_backoff_ms,
                pre.max_retries,
            ),
        }
    }
}

/// The records of a store, keyed by event id, and their ids in insertion order.
struct Entries {
    records: StringHashMap<EventRecord>,
    order: Vec<String>,
}

impl Entries {
    fn empty() -> (e: Self)
        ensures
            e.records@ == Map::<Seq<char>, EventRecord>::empty(),
            e.order@.len() == 0,
    {
        Entries { records: StringHashMap::new(), order: Vec::new() }
    }
}

/// The authoritative in-memory store of event records and their lifecycle.
pub struct MemoryStore {
    entries: Entries,
    base_backoff_ms: u64,
    max_retries: u32,
    queue_stale_time_ms: u64,
    burst_size: usize,
}

impl View for MemoryStore {
    type V = StoreView;

    closed spec fn view(&self) -> StoreView {
        self.view_with(&self.entries)
    }
}

impl MemoryStore {
    /// The store's configuration together with the given entries.
    closed spec fn view_with(&self, e: &Entries) -> StoreView {
        StoreView {
            records: e.records@,
            order: e.order@.map_values(|s: String| s@),
            base_backoff_ms: self.base_backoff_ms,
            max_retries: self.max_retries,
            queue_stale_time_ms: self.queue_stale_time_ms,
            burst_size: self.burst_size,
        }
    }

    /// The store's invariant (see `StoreView::wf`), which every store keeps.
    #[verifier::type_invariant]
    pub open spec fn wf(&self) -> bool {
        self@.wf()
    }

    /// An empty store with the given retry and queueing configuration.
    pub fn new(
        base_backoff_ms: u64,
        max_retries: u32,
        queue_stale_time_ms: u64,
        burst_size: usize,
    ) -> (s: Self)
        ensures
            s@.records == Map::<Seq<char>, EventRecord>::empty(),
            s@.order == Seq::<Seq<char>>::empty(),
            s@.base_backoff_ms == base_backoff_ms,
            s@.max_retries == max_retries,
            s@.queue_stale_time_ms == queue_stale_time_ms,
            s@.burst_size == burst_size,
    {
        let entries = Entries::empty();
        let ghost cfg = StoreView {
            records: entries.records@,
            order: entries.order@.map_values(|s: String| s@),
            base_backoff_ms,
            max_retries,
            queue_stale_time_ms,
            burst_size,
        };
        assert(cfg.order =~= Seq::<Seq<char>>::empty());
        assert(cfg.wf());
        MemoryStore { entries, base_backoff_ms, max_retries, queue_stale_time_ms, burst_size }
    }

    /// The record stored under `id`, or `NotFound`.
    pub fn get(&self, id: &str) -> (r: Result<EventRecord, StoreError>)
        ensures
            self@.records.contains_key(id@) ==> r == Ok::<EventRecord, StoreError>(
                self@.records[id@],
            ),
            !self@.records.contains_key(id@) ==> r == Err::<EventRecord, StoreError>(
                StoreError::NotFound,
            ),
    {
        match self.entries.records.get(id) {
            Some(rec) => Ok(rec.clone()),
            None => Err(StoreError::NotFound),
        }
    }

    /// Binds the record's own id to `rec`, keeping the invariant.
    fn put(&mut self, rec: EventRecord)
        requires
            record_consistent(rec),
        ensures
            final(self)@ == old(self)@.put(rec.event.event_id@, rec),
    {
        proof {
            use_type_invariant(&*self);
        }
        let ghost id = rec.event.event_id@;
        let ghost before = self@;
        let mut entries = Entries::empty();
        std::mem::swap(&mut entries, &mut self.entries);
        assert(self.view_with(&entries) == before);
        let present = entries.records.contains_key(rec.event.event_id.as_str());
        if !present {
            entries.order.push(rec.event.event_id.clone());
        }
        let key = rec.event.event_id.clone();
        entries.records.insert(key, rec);
        let ghost after = self.view_with(&entries);
        assert(after.order =~= before.put(id, rec).order);
        assert forall|k: Seq<char>| #[trigger] after.records.contains_key(k) implies after.order.contains(k) by {
            if k == id {
                if !present {
                    assert(after.order[after.order.len() - 1] == id);
                }
            } else {
                assert(before.records.contains_key(k));
                let j = choose|j: int| 0 <= j < before.order.len() && before.order[j] == k;
                assert(after.order[j] == k);
            }
        }
        assert forall|i: int, j: int| 0 <= i < j < after.order.len() implies after.order[i] != after.order[j] by {
            if !present && j == after.order.len() - 1 {
                assert(before.records.contains_key(before.order[i]));
            }
        }
        assert(after == before.put(id, rec));
        self.entries = entries;
    }
}

impl MemoryStore {
    /// Inserts a fresh record for `event`, created at `now`, unless one is
    /// stored under its id. Hands back the stored record together with
    /// `Ok(true)` when it was inserted, `Ok(false)` when a record with the
    /// same payload hash was there, and `HashMismatch` when the id is
    /// reused with a different payload; in the last two cases nothing changes.
    pub fn insert_if_absent_at(&mut self, event: Event, now: i64) -> (res: (
        EventRecord,
        Result<bool, StoreError>,
    ))
        ensures
            insert_outcome(old(self)@, final(self)@, event, now, res),
    {
        proof {
            use_type_invariant(&*self);
        }
        match self.entries.records.get(event.event_id.as_str()) {
            Some(rec) => {
                let existing = rec.clone();
                let hash = event.get_hash();
                if existing.payload_hash != hash {
                    (existing, Err(StoreError::HashMismatch))
                } else {
                    (existing, Ok(false))
                }
            },
            None => {
                let record = EventRecord::new_at(event, now);
                let stored = record.clone();
                self.put(stored);
                (record, Ok(true))
            },
        }
    }

    /// `insert_if_absent_at` at the current time.
    pub fn insert_if_absent(&mut self, event: Event) -> (res: (EventRecord, Result<bool, StoreError>))
        ensures
            exists|now: i64|
                0 <= now <= MAX_CLOCK_MS && #[trigger] insert_outcome(
                    old(self)@,
                    final(self)@,
                    event,
                    now,
                    res,
                ),
    {
        let now = now_millis();
        self.insert_if_absent_at(event, now)
    }
}

/// Whether the record may be processed at `now` (see `runnable`).
fn is_runnable(rec: &EventRecord, now: i64) -> (r: bool)
    ensures
        r == runnable(*rec, now),
{
    match rec.status {
        EventStatus::Received => true,
        EventStatus::FailedRetry => match rec.retry_time {
            None => true,
            Some(t) => t <= now,
        },
        _ => false,
    }
}

/// Whether the record may be queued at `now` (see `enqueueable`).
fn is_enqueueable(rec: &EventRecord, now: i64, stale_ms: u64) -> (r: bool)
    ensures
        r == enqueueable(*rec, now, stale_ms),
{
    if !rec.queued {
        true
    } else {
        match rec.queue_time {
            None => true,
            Some(q) => (now as i128) - (q as i128) > (stale_ms as i128),
        }
    }
}

impl MemoryStore {
    /// Puts the event on the queue at `now` when it is runnable and not
    /// freshly queued; otherwise, or when no record has the id, a no-op.
    pub fn reserve_enqueue_if_needed(&mut self, event_id: &str, now: i64) -> (r: ReserveResult)
        ensures
            reserve_outcome(old(self)@, final(self)@, event_id@, now, r),
    {
        proof {
            use_type_invariant(&*self);
        }
        let rec = match self.entries.records.get(event_id) {
            Some(rec) => rec,
            None => return ReserveResult::Noop,
        };
        if is_runnable(rec, now) && is_enqueueable(rec, now, self.queue_stale_time_ms) {
            let mut updated = rec.clone();
            updated.queued = true;
            updated.queue_time = Some(now);
            updated.updated_at = now;
            assert(updated == mark_queued(old(self)@.records[event_id@], now));
            self.put(updated);
            ReserveResult::Enqueue
        } else {
            ReserveResult::Noop
        }
    }

    /// Claims the event for processing at `now`: a received event, or a
    /// failed one whose retry time has come, moves to `Processing` with one
    /// more attempt and leaves the queue. A completed event is reported as
    /// such, any other one as not runnable; neither changes.
    pub fn try_start_processing_at(&mut self, id: &str, now: i64) -> (r: StartResult)
        ensures
            start_outcome(old(self)@, final(self)@, id@, now, r),
    {
        proof {
            use_type_invariant(&*self);
        }
        let rec = match self.entries.records.get(id) {
            Some(rec) => rec,
            None => return StartResult::NotFound,
        };
        if rec.status == EventStatus::Completed {
            StartResult::SkipAlreadyCompleted
        } else if is_runnable(rec, now) {
            let mut updated = rec.clone();
            updated.status = EventStatus::Processing;
            updated.attempts = updated.attempts.saturating_add(1);
            updated.updated_at = now;
            updated.queued = false;
            updated.queue_time = None;
            assert(updated == claimed(old(self)@.records[id@], now));
            let attempt = updated.attempts;
            let snapshot = updated.clone();
            self.put(updated);
            StartResult::Start { attempt, record: snapshot }
        } else {
            StartResult::SkipNotRunnable
        }
    }

    /// `try_start_processing_at` at the current time.
    pub fn try_start_processing(&mut self, id: &str) -> (r: StartResult)
        ensures
            exists|now: i64|
                0 <= now <= MAX_CLOCK_MS && #[trigger] start_outcome(
                    old(self)@,
                    final(self)@,
                    id@,
                    now,
                    r,
                ),
    {
        let now = now_millis();
        self.try_start_processing_at(id, now)
    }
}

/// The retry delay `backoff_ms(base_ms, retries_used)`, computed without
/// overflow.
fn backoff_delay(base_ms: u64, retries_used: u32) -> (d: u64)
    ensures
        d == backoff_ms(base_ms, retries_used as nat),
{
    if base_ms == 0 {
        assert(base_ms * two_pow(retries_used as nat) == 0);
        return 0;
    }
    let mut d = base_ms;
    let mut i: u32 = 0;
    assert(two_pow(0) == 1);
    while i < retries_used && d < MAX_BACKOFF_MS
        invariant
            0 < base_ms,
            i <= retries_used,
            d == base_ms * two_pow(i as nat),
        decreases retries_used - i,
    {
        proof {
            let p = two_pow(i as nat);
            assert(two_pow((i + 1) as nat) == 2 * p);
            assert(base_ms * (2 * p) == 2 * (base_ms * p)) by (nonlinear_arith);
        }
        d = d * 2;
        i = i + 1;
    }
    proof {
        if i < retries_used {
            lemma_two_pow_monotone(i as nat, retries_used as nat);
            let p = two_pow(i as nat);
            let q = two_pow(retries_used as nat);
            assert(base_ms * p <= base_ms * q) by (nonlinear_arith)
                requires
                    p <= q,
                    0 < base_ms,
            ;
        }
    }
    if d < MAX_BACKOFF_MS {
        d
    } else {
        MAX_BACKOFF_MS
    }
}

impl MemoryStore {
    /// Finishes attempt `attempt` of the event `id` with `result` at `now`.
    /// The event must be `Processing` (else `InvalidStateTransition`) and
    /// `attempt` its current attempt (else `Conflict`). Success completes
    /// it; an error records the error and, after a shutdown, schedules a
    /// retry at `now`; once `max_retries` retries are used it fails for
    /// good; otherwise it schedules a retry after the backoff delay.
    pub fn finish_processing_at(
        &mut self,
        id: &str,
        attempt: u32,
        result: Result<(), String>,
        now: i64,
    ) -> (r: Result<(), StoreError>)
        requires
            now <= i64::MAX - MAX_BACKOFF_MS,
        ensures
            finish_outcome(old(self)@, final(self)@, id@, attempt, result, now, r),
    {
        proof {
            use_type_invariant(&*self);
        }
        let rec = match self.entries.records.get(id) {
            Some(rec) => rec,
            None => return Err(StoreError::NotFound),
        };
        if rec.status != EventStatus::Processing {
            return Err(StoreError::InvalidStateTransition);
        }
        if rec.attempts != attempt {
            return Err(StoreError::Conflict);
        }
        let mut updated = rec.clone();
        match result {
            Ok(()) => {
                updated.result = Some(String::from_str("success"));
                updated.status = EventStatus::Completed;
            },
            Err(e) => {
                if spells(&e, "Shutting down") {
                    updated.status = EventStatus::FailedRetry;
                    updated.retry_time = Some(now);
                } else {
                    let retries_used = updated.attempts - 1;
                    if retries_used >= self.max_retries {
                        updated.status = EventStatus::Failed;
                    } else {
                        updated.status = EventStatus::FailedRetry;
                        let delay = backoff_delay(self.base_backoff_ms, retries_used);
                        updated.retry_time = Some(now + delay as i64);
                    }
                }
                updated.last_error = Some(e);
            },
        }
        updated.updated_at = now;
        self.put(updated);
        Ok(())
    }

    /// `finish_processing_at` at the current time.
    pub fn finish_processing(&mut self, id: &str, attempt: u32, result: Result<(), String>) -> (r:
        Result<(), StoreError>)
        ensures
            exists|now: i64|
                0 <= now <= MAX_CLOCK_MS && #[trigger] finish_outcome(
                    old(self)@,
                    final(self)@,
                    id@,
                    attempt,
                    result,
                    now,
                    r,
                ),
    {
        let now = now_millis();
        self.finish_processing_at(id, attempt, result, now)
    }
}

/// Whether the record is scheduled at `now` (see `eligible`).
fn is_eligible(rec: &EventRecord, now: i64, stale_ms: u64) -> (r: bool)
    ensures
        r == eligible(*rec, now, stale_ms),
{
    is_runnable(rec, now) && is_enqueueable(rec, now, stale_ms)
}

impl MemoryStore {
    /// The ids of the events to schedule at `now`: the first `burst_size`
    /// eligible ones in insertion order.
    pub fn list_enqueue_candidates(&self, now: i64) -> (ids: Vec<String>)
        ensures
            ids@.map_values(|s: String| s@) == enqueue_candidates(self@, now),
    {
        proof {
            use_type_invariant(self);
        }
        let ghost ov = self@.order;
        let ghost recs = self@.records;
        let ghost stale = self.queue_stale_time_ms;
        let mut out: Vec<String> = Vec::new();
        let n = self.entries.order.len();
        let mut i: usize = 0;
        assert(ov.take(0) =~= Seq::<Seq<char>>::empty());
        assert(out@.map_values(|s: String| s@) =~= Seq::<Seq<char>>::empty());
        while i < n && out.len() < self.burst_size
            invariant
                self.wf(),
                ov == self@.order,
                recs == self@.records,
                stale == self.queue_stale_time_ms,
                n == ov.len(),
                i <= n,
                out.len() <= self.burst_size,
                out@.map_values(|s: String| s@) == eligible_ids(ov.take(i as int), recs, now, stale),
            decreases n - i,
        {
            let id = &self.entries.order[i];
            assert(ov[i as int] == id@);
            assert(recs.contains_key(ov[i as int]));
            let ghost before = out@;
            match self.entries.records.get(id.as_str()) {
                Some(rec) => {
                    if is_eligible(rec, now, self.queue_stale_time_ms) {
                        out.push(id.clone());
                        assert(out@.map_values(|s: String| s@) =~= before.map_values(|s: String| s@).push(id@));
                    }
                },
                None => {},
            }
            assert(ov.take(i + 1).drop_last() =~= ov.take(i as int));
            assert(ov.take(i + 1).last() == ov[i as int]);
            i = i + 1;
        }
        proof {
            lemma_eligible_ids_prefix(ov, recs, now, stale, i as int);
            if i == n {
                assert(ov.take(n as int) =~= ov);
            }
        }
        out
    }

    /// The number of records that are marked as queued.
    pub fn queued_count(&self) -> (c: usize)
        ensures
            c == count_queued(self@.order, self@.records),
    {
        proof {
            use_type_invariant(self);
        }
        let ghost ov = self@.order;
        let ghost recs = self@.records;
        let n = self.entries.order.len();
        let mut c: usize = 0;
        let mut i: usize = 0;
        assert(ov.take(0) =~= Seq::<Seq<char>>::empty());
        while i < n
            invariant
                self.wf(),
                ov == self@.order,
                recs == self@.records,
                n == ov.len(),
                i <= n,
                c <= i,
                c == count_queued(ov.take(i as int), recs),
            decreases n - i,
        {
            let id = &self.entries.order[i];
            assert(ov[i as int] == id@);
            match self.entries.records.get(id.as_str()) {
                Some(rec) => {
                    if rec.queued {
                        c = c + 1;
                    }
                },
                None => {},
            }
            assert(ov.take(i + 1).drop_last() =~= ov.take(i as int));
            i = i + 1;
        }
        assert(ov.take(n as int) =~= ov);
        c
    }

    /// Stores `record` under its own id, replacing any record there; a
    /// helper for tests that need a record in a given state.
    pub fn update_record_for_test(&mut self, record: EventRecord)
        requires
            record_consistent(record),
        ensures
            final(self)@ == old(self)@.put(record.event.event_id@, record),
    {
        self.put(record);
    }
}

} // verus!
