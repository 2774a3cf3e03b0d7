use vstd::arithmetic::power2::{lemma2_to64, lemma_pow2_unfold, pow2};
use vstd::prelude::*;

use crate::domain::event::{Event, EventRecord};
use crate::domain::hash::payload_hash_of;
use crate::domain::state::{allowed_transition, EventStatus};
use crate::store::memory::{finish_outcome, insert_outcome, reserve_outcome, start_outcome, ReserveResult, StartResult, StoreError};
use crate::store::spec::{
    backoff_ms, claimed, count_queued, record_consistent, eligible_ids, enqueue_candidates, lemma_eligible_ids_members, mark_queued, eligible, lemma_two_pow_monotone, shutdown_reason, runnable, two_pow, StoreView,
    MAX_BACKOFF_MS,
};

verus! {

/// Inserting the same event twice: the second insert finds the first
/// one's record, answers `Ok(false)`, hands that record back and changes
/// nothing.
pub proof fn law_insert_idempotent(
    s0: StoreView,
    s1: StoreView,
    s2: StoreView,
    event: Event,
    t1: i64,
    t2: i64,
    r1: (EventRecord, Result<bool, StoreError>),
    r2: (EventRecord, Result<bool, StoreError>),
)
    requires
        insert_outcome(s0, s1, event, t1, r1),
        insert_outcome(s1, s2, event, t2, r2),
        r1.1 is Ok,
    ensures
        r2.1 == Ok::<bool, StoreError>(false),
        s2 == s1,
        r2.0 == s1.records[event.event_id@],
        r2.0 == r1.0,
{
}

/// After an insert that succeeds, reading the event's id gives back the
/// record that the insert handed out.
pub proof fn law_insert_then_read(
    pre: StoreView,
    post: StoreView,
    event: Event,
    now: i64,
    r: (EventRecord, Result<bool, StoreError>),
)
    requires
        insert_outcome(pre, post, event, now, r),
    ensures
        r.1 is Ok ==> post.records.contains_key(event.event_id@) && post.records[event.event_id@]
            == r.0,
{
}

/// An insert never replaces a stored record: when the id is already
/// stored, whatever the payload, the store stays as it was.
pub proof fn law_insert_never_overwrites(
    pre: StoreView,
    post: StoreView,
    event: Event,
    now: i64,
    r: (EventRecord, Result<bool, StoreError>),
)
    requires
        insert_outcome(pre, post, event, now, r),
        pre.records.contains_key(event.event_id@),
    ensures
        post == pre,
{
}

/// Reserving an event twice at the same instant: the second reservation is
/// a no-op, so an event is never put on the queue twice at once.
pub proof fn law_reserve_idempotent(
    s0: StoreView,
    s1: StoreView,
    s2: StoreView,
    id: Seq<char>,
    now: i64,
    r1: ReserveResult,
    r2: ReserveResult,
)
    requires
        reserve_outcome(s0, s1, id, now, r1),
        reserve_outcome(s1, s2, id, now, r2),
    ensures
        r2 == ReserveResult::Noop,
        s2 == s1,
{
}

/// A reserved event that no worker claims becomes eligible again once it
/// has sat on the queue for longer than the stale time, so a lost queue
/// entry is recovered by the sweeper.
pub proof fn law_stale_reservation_recovered(
    s0: StoreView,
    s1: StoreView,
    id: Seq<char>,
    t: i64,
    later: i64,
)
    requires
        reserve_outcome(s0, s1, id, t, ReserveResult::Enqueue),
        later - t > s1.queue_stale_time_ms,
    ensures
        eligible(s1.records[id], later, s1.queue_stale_time_ms),
{
}

/// A successful claim is a lifecycle step to `Processing` (from `Received`
/// or `FailedRetry`); it takes the event off the queue and hands out its new
/// attempt number.
pub proof fn law_claim_step(
    pre: StoreView,
    post: StoreView,
    id: Seq<char>,
    now: i64,
    attempt: u32,
    record: EventRecord,
)
    requires
        start_outcome(pre, post, id, now, StartResult::Start { attempt, record }),
    ensures
        pre.records.contains_key(id),
        allowed_transition(pre.records[id].status, EventStatus::Processing),
        post.records[id].status == EventStatus::Processing,
        !post.records[id].queued,
        post.records[id].queue_time is None,
        post.records[id].attempts == attempt,
        record == post.records[id],
{
}

/// Finishing changes an event's status only along the lifecycle: from
/// `Processing` to `Completed`, `FailedRetry` or `Failed`.
pub proof fn law_finish_follows_lifecycle(
    pre: StoreView,
    post: StoreView,
    id: Seq<char>,
    attempt: u32,
    result: Result<(), String>,
    now: i64,
    r: Result<(), StoreError>,
)
    requires
        finish_outcome(pre, post, id, attempt, result, now, r),
        r is Ok,
    ensures
        allowed_transition(pre.records[id].status, post.records[id].status),
{
}

/// The worker that claimed an event may finish it: finishing with the
/// attempt number that the claim handed out is accepted.
pub proof fn law_claim_then_finish_accepted(
    s0: StoreView,
    s1: StoreView,
    s2: StoreView,
    id: Seq<char>,
    t1: i64,
    t2: i64,
    attempt: u32,
    record: EventRecord,
    result: Result<(), String>,
    r: Result<(), StoreError>,
)
    requires
        start_outcome(s0, s1, id, t1, StartResult::Start { attempt, record }),
        finish_outcome(s1, s2, id, attempt, result, t2, r),
    ensures
        r == Ok::<(), StoreError>(()),
{
}

/// A completed or failed event is final: reserving, claiming or finishing
/// it changes nothing.
pub proof fn law_terminal_states_are_final(
    pre: StoreView,
    id: Seq<char>,
    now: i64,
    attempt: u32,
    result: Result<(), String>,
    p1: StoreView,
    r1: ReserveResult,
    p2: StoreView,
    r2: StartResult,
    p3: StoreView,
    r3: Result<(), StoreError>,
)
    requires
        pre.records.contains_key(id),
        pre.records[id].status == EventStatus::Completed || pre.records[id].status
            == EventStatus::Failed,
        reserve_outcome(pre, p1, id, now, r1),
        start_outcome(pre, p2, id, now, r2),
        finish_outcome(pre, p3, id, attempt, result, now, r3),
    ensures
        p1 == pre,
        p2 == pre,
        p3 == pre,
        r1 == ReserveResult::Noop,
        !(r2 is Start),
        r3 == Err::<(), StoreError>(StoreError::InvalidStateTransition),
{
}

/// A failure caused by a shutdown is retried at once: the event can be
/// claimed again at the instant it failed, or any time after.
pub proof fn law_shutdown_failure_retried_at_once(
    pre: StoreView,
    post: StoreView,
    id: Seq<char>,
    attempt: u32,
    err: String,
    now: i64,
    later: i64,
)
    requires
        finish_outcome(pre, post, id, attempt, Err::<(), String>(err), now, Ok::<(), StoreError>(())),
        err@ == shutdown_reason(),
        now <= later,
    ensures
        post.records[id].status == EventStatus::FailedRetry,
        runnable(post.records[id], later),
{
}

/// An event fails for good only when `max_retries` retries are used up;
/// before that, an ordinary failure schedules a retry.
pub proof fn law_retries_bounded(
    pre: StoreView,
    post: StoreView,
    id: Seq<char>,
    attempt: u32,
    err: String,
    now: i64,
)
    requires
        finish_outcome(pre, post, id, attempt, Err::<(), String>(err), now, Ok::<(), StoreError>(())),
        err@ != shutdown_reason(),
    ensures
        post.records[id].status == EventStatus::Failed <==> pre.records[id].attempts - 1
            >= pre.max_retries,
        post.records[id].status == EventStatus::FailedRetry <==> pre.records[id].attempts - 1
            < pre.max_retries,
{
}

/// The retry delay never shrinks as retries are used, never exceeds thirty
/// seconds, and doubles while it stays below that cap.
pub proof fn law_backoff_grows_and_is_capped(base_ms: u64, r1: nat, r2: nat)
    requires
        r1 <= r2,
    ensures
        0 <= backoff_ms(base_ms, r1) <= backoff_ms(base_ms, r2) <= MAX_BACKOFF_MS,
        2 * backoff_ms(base_ms, r1) < MAX_BACKOFF_MS ==> backoff_ms(base_ms, r1 + 1) == 2
            * backoff_ms(base_ms, r1),
{
    lemma_two_pow_monotone(r1, r2);
    let p = two_pow(r1);
    let q = two_pow(r2);
    assert(base_ms * p <= base_ms * q) by (nonlinear_arith)
        requires
            p <= q,
    ;
    assert(base_ms * p >= 0) by (nonlinear_arith)
        requires
            p >= 1,
    ;
    assert(two_pow(r1 + 1) == 2 * p);
    assert(base_ms * (2 * p) == 2 * (base_ms * p)) by (nonlinear_arith);
}

/// Every eligible id of `ids` is kept by `eligible_ids`.
proof fn lemma_eligible_ids_complete(
    ids: Seq<Seq<char>>,
    records: Map<Seq<char>, EventRecord>,
    now: i64,
    stale_ms: u64,
)
    ensures
        forall|j: int|
            0 <= j < ids.len() && eligible(records[ids[j]], now, stale_ms) ==> #[trigger] eligible_ids(
                ids,
                records,
                now,
                stale_ms,
            ).contains(ids[j]),
    decreases ids.len(),
{
    if ids.len() > 0 {
        let prev = eligible_ids(ids.drop_last(), records, now, stale_ms);
        let res = eligible_ids(ids, records, now, stale_ms);
        lemma_eligible_ids_complete(ids.drop_last(), records, now, stale_ms);
        assert forall|j: int| 0 <= j < ids.len() && eligible(records[ids[j]], now, stale_ms) implies #[trigger] res.contains(ids[j]) by {
            if j == ids.len() - 1 {
                assert(res[res.len() - 1] == ids[j]);
            } else {
                assert(ids.drop_last()[j] == ids[j]);
                assert(prev.contains(ids[j]));
                let k = choose|k: int| 0 <= k < prev.len() && prev[k] == ids[j];
                assert(res[k] == prev[k]);
            }
        }
    }
}

/// The candidates offered at `now` are stored, eligible ids, each listed
/// once, at most `burst_size` of them; when fewer than `burst_size` are
/// offered, every eligible stored event is among them.
pub proof fn law_candidates(v: StoreView, now: i64)
    requires
        v.wf(),
    ensures
        ({
            let c = enqueue_candidates(v, now);
            &&& c.len() <= v.burst_size
            &&& forall|k: int|
                0 <= k < c.len() ==> v.records.contains_key(#[trigger] c[k]) && eligible(
                    v.records[c[k]],
                    now,
                    v.queue_stale_time_ms,
                )
            &&& forall|a: int, b: int| 0 <= a < b < c.len() ==> c[a] != c[b]
            &&& c.len() < v.burst_size ==> forall|id: Seq<char>|
                v.records.contains_key(id) && eligible(v.records[id], now, v.queue_stale_time_ms)
                    ==> #[trigger] c.contains(id)
        }),
{
    let all = eligible_ids(v.order, v.records, now, v.queue_stale_time_ms);
    let c = enqueue_candidates(v, now);
    lemma_eligible_ids_members(v.order, v.records, now, v.queue_stale_time_ms);
    lemma_eligible_ids_complete(v.order, v.records, now, v.queue_stale_time_ms);
    assert forall|k: int| 0 <= k < c.len() implies v.records.contains_key(#[trigger] c[k]) && eligible(
        v.records[c[k]],
        now,
        v.queue_stale_time_ms,
    ) by {
        assert(c[k] == all[k]);
        let j = choose|j: int| 0 <= j < v.order.len() && v.order[j] == all[k];
    }
    assert forall|a: int, b: int| 0 <= a < b < c.len() implies c[a] != c[b] by {
        assert(c[a] == all[a]);
        assert(c[b] == all[b]);
    }
    if c.len() < v.burst_size {
        assert(c == all);
        assert forall|id: Seq<char>|
            v.records.contains_key(id) && eligible(v.records[id], now, v.queue_stale_time_ms)
                implies #[trigger] c.contains(id) by {
            let j = choose|j: int| 0 <= j < v.order.len() && v.order[j] == id;
            assert(all.contains(v.order[j]));
        }
    }
}

/// Rebinding an id that `ids` does not list leaves the queued count of
/// `ids` unchanged.
proof fn lemma_count_queued_unlisted(
    ids: Seq<Seq<char>>,
    records: Map<Seq<char>, EventRecord>,
    k: Seq<char>,
    r: EventRecord,
)
    requires
        !ids.contains(k),
    ensures
        count_queued(ids, records.insert(k, r)) == count_queued(ids, records),
    decreases ids.len(),
{
    if ids.len() > 0 {
        assert(ids[ids.len() - 1] == ids.last());
        assert forall|x: Seq<char>| ids.drop_last().contains(x) implies ids.contains(x) by {
            let j = choose|j: int| 0 <= j < ids.drop_last().len() && ids.drop_last()[j] == x;
            assert(ids[j] == x);
        }
        lemma_count_queued_unlisted(ids.drop_last(), records, k, r);
    }
}

/// Rebinding an id that `ids` lists exactly once changes the queued count
/// by what the new record adds and the old one took.
proof fn lemma_count_queued_rebind(
    ids: Seq<Seq<char>>,
    records: Map<Seq<char>, EventRecord>,
    k: Seq<char>,
    r: EventRecord,
)
    requires
        ids.contains(k),
        forall|a: int, b: int| 0 <= a < b < ids.len() ==> ids[a] != ids[b],
    ensures
        count_queued(ids, records.insert(k, r)) + (if records[k].queued {
            1int
        } else {
            0int
        }) == count_queued(ids, records) + (if r.queued {
            1int
        } else {
            0int
        }),
    decreases ids.len(),
{
    let rest = ids.drop_last();
    assert(ids[ids.len() - 1] == ids.last());
    if ids.last() == k {
        assert forall|j: int| 0 <= j < rest.len() implies rest[j] != k by {
            assert(ids[j] == rest[j]);
        }
        lemma_count_queued_unlisted(rest, records, k, r);
    } else {
        let j = choose|j: int| 0 <= j < ids.len() && ids[j] == k;
        assert(rest[j] == k);
        assert forall|a: int, b: int| 0 <= a < b < rest.len() implies rest[a] != rest[b] by {
            assert(rest[a] == ids[a] && rest[b] == ids[b]);
        }
        lemma_count_queued_rebind(rest, records, k, r);
    }
}

/// Putting an unqueued event on the queue raises the backlog (the number of
/// queued records) by one.
pub proof fn law_reserve_raises_backlog(pre: StoreView, post: StoreView, id: Seq<char>, now: i64)
    requires
        pre.wf(),
        reserve_outcome(pre, post, id, now, ReserveResult::Enqueue),
        !pre.records[id].queued,
    ensures
        count_queued(post.order, post.records) == count_queued(pre.order, pre.records) + 1,
{
    lemma_count_queued_rebind(pre.order, pre.records, id, mark_queued(pre.records[id], now));
}

/// Claiming a queued event lowers the backlog by one.
pub proof fn law_claim_lowers_backlog(
    pre: StoreView,
    post: StoreView,
    id: Seq<char>,
    now: i64,
    attempt: u32,
    record: EventRecord,
)
    requires
        pre.wf(),
        start_outcome(pre, post, id, now, StartResult::Start { attempt, record }),
        pre.records[id].queued,
    ensures
        count_queued(post.order, post.records) + 1 == count_queued(pre.order, pre.records),
{
    lemma_count_queued_rebind(pre.order, pre.records, id, claimed(pre.records[id], now));
}

/// No operation lowers an event's attempt count: reserving and finishing
/// keep it, and a claim raises it (saturating at the largest `u32`).
pub proof fn law_attempts_never_decrease(
    pre: StoreView,
    id: Seq<char>,
    now: i64,
    attempt: u32,
    result: Result<(), String>,
    p1: StoreView,
    r1: ReserveResult,
    p2: StoreView,
    r2: StartResult,
    p3: StoreView,
    r3: Result<(), StoreError>,
)
    requires
        pre.records.contains_key(id),
        reserve_outcome(pre, p1, id, now, r1),
        start_outcome(pre, p2, id, now, r2),
        finish_outcome(pre, p3, id, attempt, result, now, r3),
    ensures
        p1.records[id].attempts == pre.records[id].attempts,
        p2.records[id].attempts >= pre.records[id].attempts,
        p3.records[id].attempts == pre.records[id].attempts,
{
}

/// An event that was put on the queue can be claimed at that instant or
/// any later one, as long as nothing else touched it: no reserved event is
/// stranded.
pub proof fn law_reserved_event_claimable(
    s0: StoreView,
    s1: StoreView,
    s2: StoreView,
    id: Seq<char>,
    t: i64,
    later: i64,
    r: StartResult,
)
    requires
        reserve_outcome(s0, s1, id, t, ReserveResult::Enqueue),
        t <= later,
        start_outcome(s1, s2, id, later, r),
    ensures
        r is Start,
{
}

/// Reserving a stored event at `now` puts it on the queue exactly when it is
/// due and not freshly queued: it is newly received, or failed with a retry
/// time that is missing or not after `now`; and it is not queued, or has no
/// queue time, or was queued more than `queue_stale_time_ms` before `now`.
/// The queued record keeps everything but its queue mark, queue time and
/// update time, and keeps its place in the insertion order; a refusal
/// changes nothing.
pub proof fn law_reserve_exactly_when_due(
    pre: StoreView,
    post: StoreView,
    id: Seq<char>,
    now: i64,
    r: ReserveResult,
)
    requires
        reserve_outcome(pre, post, id, now, r),
        pre.records.contains_key(id),
    ensures
        ({
            let rec = pre.records[id];
            let due = rec.status == EventStatus::Received || (rec.status
                == EventStatus::FailedRetry && (rec.retry_time is None
                || rec.retry_time.unwrap() <= now));
            let fresh = rec.queued && rec.queue_time is Some && now - rec.queue_time.unwrap()
                <= pre.queue_stale_time_ms;
            &&& (r == ReserveResult::Enqueue) <==> (due && !fresh)
            &&& r == ReserveResult::Enqueue ==> {
                &&& post.records == pre.records.insert(
                    id,
                    EventRecord { queued: true, queue_time: Some(now), updated_at: now, ..rec },
                )
                &&& post.order == pre.order
            }
            &&& r == ReserveResult::Noop ==> post == pre
        }),
{
}

/// The candidates offered at `now` are stored events that are due and not
/// freshly queued (see `law_reserve_exactly_when_due`), each listed once, at
/// most `burst_size` of them, and, when fewer than `burst_size` are offered,
/// every such stored event is among them. In particular an unqueued event
/// whose retry time has come is offered.
pub proof fn law_candidates_are_due_events(v: StoreView, now: i64)
    requires
        v.wf(),
    ensures
        ({
            let c = enqueue_candidates(v, now);
            &&& c.len() <= v.burst_size
            &&& forall|k: int|
                0 <= k < c.len() ==> {
                    let rec = #[trigger] v.records[c[k]];
                    &&& v.records.contains_key(c[k])
                    &&& rec.status == EventStatus::Received || (rec.status
                        == EventStatus::FailedRetry && (rec.retry_time is None
                        || rec.retry_time.unwrap() <= now))
                    &&& !rec.queued || rec.queue_time is None || now - rec.queue_time.unwrap()
                        > v.queue_stale_time_ms
                }
            &&& forall|a: int, b: int| 0 <= a < b < c.len() ==> c[a] != c[b]
            &&& c.len() < v.burst_size ==> forall|id: Seq<char>|
                #![trigger v.records[id]]
                v.records.contains_key(id) && (v.records[id].status == EventStatus::Received
                    || (v.records[id].status == EventStatus::FailedRetry && (
                    v.records[id].retry_time is None || v.records[id].retry_time.unwrap()
                        <= now))) && (!v.records[id].queued || v.records[id].queue_time is None
                    || now - v.records[id].queue_time.unwrap() > v.queue_stale_time_ms)
                    ==> c.contains(id)
        }),
{
    law_candidates(v, now);
    let c = enqueue_candidates(v, now);
    assert forall|k: int| 0 <= k < c.len() implies {
        let rec = #[trigger] v.records[c[k]];
        &&& v.records.contains_key(c[k])
        &&& rec.status == EventStatus::Received || (rec.status == EventStatus::FailedRetry && (
        rec.retry_time is None || rec.retry_time.unwrap() <= now))
        &&& !rec.queued || rec.queue_time is None || now - rec.queue_time.unwrap()
            > v.queue_stale_time_ms
    } by {
        assert(v.records.contains_key(c[k]) && eligible(v.records[c[k]], now, v.queue_stale_time_ms));
    }
    if c.len() < v.burst_size {
        assert forall|id: Seq<char>|
            #![trigger v.records[id]]
            v.records.contains_key(id) && (v.records[id].status == EventStatus::Received || (
            v.records[id].status == EventStatus::FailedRetry && (v.records[id].retry_time is None
                || v.records[id].retry_time.unwrap() <= now))) && (!v.records[id].queued
                || v.records[id].queue_time is None || now - v.records[id].queue_time.unwrap()
                > v.queue_stale_time_ms) implies c.contains(id) by {
            assert(eligible(v.records[id], now, v.queue_stale_time_ms));
        }
    }
}

/// `two_pow` is the power of two of vstd's arithmetic library.
proof fn lemma_two_pow_is_pow2(n: nat)
    ensures
        two_pow(n) == pow2(n),
    decreases n,
{
    if n == 0 {
        lemma2_to64();
    } else {
        lemma_two_pow_is_pow2((n - 1) as nat);
        lemma_pow2_unfold(n);
    }
}

/// How a failed attempt is recorded. The error, the finish time and the
/// status are always recorded. A failure caused by a shutdown is retried at
/// once. Otherwise, when `attempts - 1 < max_retries`, the retry waits
/// `min(base_backoff_ms * 2^(attempts - 1), 30_000)` milliseconds; when
/// the retries are used up, the event fails for good.
pub proof fn law_failure_schedules_backoff(
    pre: StoreView,
    post: StoreView,
    id: Seq<char>,
    attempt: u32,
    err: String,
    now: i64,
    r: Result<(), StoreError>,
)
    requires
        pre.wf(),
        finish_outcome(pre, post, id, attempt, Err(err), now, r),
        pre.records.contains_key(id),
        pre.records[id].status == EventStatus::Processing,
        pre.records[id].attempts == attempt,
    ensures
        r == Ok::<(), StoreError>(()),
        post.order == pre.order,
        post.records.contains_key(id),
        post.records[id].last_error == Some(err),
        post.records[id].updated_at == now,
        post.records[id].attempts == attempt,
        post.records[id].event == pre.records[id].event,
        err@ == "Shutting down"@ ==> post.records[id].status == EventStatus::FailedRetry
            && post.records[id].retry_time == Some(now),
        err@ != "Shutting down"@ && attempt - 1 >= pre.max_retries ==> post.records[id].status
            == EventStatus::Failed,
        err@ != "Shutting down"@ && attempt - 1 < pre.max_retries ==> {
            let full = pre.base_backoff_ms * pow2((attempt - 1) as nat);
            &&& post.records[id].status == EventStatus::FailedRetry
            &&& post.records[id].retry_time == Some(
                (now + if full < 30_000 {
                    full
                } else {
                    30_000
                }) as i64,
            )
        },
{
    assert(record_consistent(pre.records[id]));
    lemma_two_pow_is_pow2((attempt - 1) as nat);
    assert(shutdown_reason() == "Shutting down"@);
}

/// A worker's claim on a stored event at `now` succeeds exactly when the
/// event is newly received, or failed with a retry time that is missing or
/// not after `now`. The claimed record is `Processing`, with one more attempt
/// (saturating at the largest `u32`), off the queue, and updated at `now`;
/// the claim hands out that record and its attempt number. A completed event
/// is reported as such, and no refusal changes the store.
pub proof fn law_claim_exactly_when_due(
    pre: StoreView,
    post: StoreView,
    id: Seq<char>,
    now: i64,
    r: StartResult,
)
    requires
        start_outcome(pre, post, id, now, r),
        pre.records.contains_key(id),
    ensures
        ({
            let rec = pre.records[id];
            let due = rec.status == EventStatus::Received || (rec.status
                == EventStatus::FailedRetry && (rec.retry_time is None
                || rec.retry_time.unwrap() <= now));
            let attempts = if rec.attempts == u32::MAX {
                rec.attempts
            } else {
                (rec.attempts + 1) as u32
            };
            let claimed_rec = EventRecord {
                status: EventStatus::Processing,
                attempts,
                updated_at: now,
                queued: false,
                queue_time: None,
                ..rec
            };
            &&& (r is Start) <==> due
            &&& (r is SkipAlreadyCompleted) <==> rec.status == EventStatus::Completed
            &&& r is Start ==> {
                &&& r == StartResult::Start { attempt: attempts, record: claimed_rec }
                &&& post.records == pre.records.insert(id, claimed_rec)
                &&& post.order == pre.order
            }
            &&& !(r is Start) ==> post == pre
        }),
{
}

/// Inserting an event: a new id gets a record for the event, received, not
/// queued, with no attempts, error, retry time or result, created and
/// updated at `now`, whose payload hash is that of the event's payload, and
/// the id goes to the end of the insertion order (`Ok(true)`). A stored id
/// is refused with `HashMismatch` exactly when the stored payload hash
/// differs from that of the new payload, and is otherwise a duplicate
/// (`Ok(false)`); either way the stored record is handed back unchanged.
pub proof fn law_insert_outcomes(
    pre: StoreView,
    post: StoreView,
    event: Event,
    now: i64,
    r: (EventRecord, Result<bool, StoreError>),
)
    requires
        insert_outcome(pre, post, event, now, r),
    ensures
        ({
            let id = event.event_id@;
            let hash = payload_hash_of(event.payload.0@);
            if pre.records.contains_key(id) {
                &&& r.0 == pre.records[id]
                &&& post == pre
                &&& (r.1 == Err::<bool, StoreError>(StoreError::HashMismatch)) <==> pre.records[id].payload_hash@
                    != hash
                &&& (r.1 == Ok::<bool, StoreError>(false)) <==> pre.records[id].payload_hash@ == hash
            } else {
                &&& r.1 == Ok::<bool, StoreError>(true)
                &&& r.0.event == event
                &&& r.0.payload_hash@ == hash
                &&& r.0.status == EventStatus::Received
                &&& !r.0.queued && r.0.queue_time is None
                &&& r.0.attempts == 0
                &&& r.0.last_error is None && r.0.retry_time is None && r.0.result is None
                &&& r.0.created_at == now && r.0.updated_at == now
                &&& post.records == pre.records.insert(id, r.0)
                &&& post.order == pre.order.push(id)
            }
        }),
{
}

} // verus!
