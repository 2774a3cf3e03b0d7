use vstd::prelude::*;

use crate::clock::{now_millis, MAX_CLOCK_MS};
use crate::service::ingest::IngestService;
use crate::store::spec::{
    eligible, eligible_ids, enqueue_candidates, lemma_eligible_ids_members, mark_all_queued,
    mark_queued,
};

verus! {

/// Periodically re-offers stranded work: events whose retry time has come
/// and events that sat on the queue for too long.
pub struct Sweeper {
    sweeper_interval_ms: u64,
}

/// What one sweep at `now` leaves: every candidate the store offered at
/// `now` is marked as queued; only the count of ids put into the channel
/// may grow, by at most one per candidate.
pub open spec fn sweep_outcome(pre: IngestService, post: IngestService, now: i64) -> bool {
    let cands = enqueue_candidates(pre.store@, now);
    &&& post.store@ == mark_all_queued(pre.store@, cands, now)
    &&& post.counters.ingested == pre.counters.ingested
    &&& post.counters.deduped == pre.counters.deduped
    &&& pre.counters.enqueued <= post.counters.enqueued <= pre.counters.enqueued + cands.len()
    &&& post.tx == pre.tx
    &&& post.shutdown_tx == pre.shutdown_tx
}

impl Sweeper {
    /// A sweeper that runs every `sweeper_interval_ms` milliseconds.
    pub fn new(sweeper_interval_ms: u64) -> (s: Self)
        ensures
            s.interval_ms() == sweeper_interval_ms,
    {
        Sweeper { sweeper_interval_ms }
    }

    /// The pause between sweeps, in milliseconds.
    pub closed spec fn interval_ms(&self) -> u64 {
        self.sweeper_interval_ms
    }

    /// The pause between sweeps, in milliseconds.
    pub fn sweeper_interval_ms(&self) -> (ms: u64)
        ensures
            ms == self.interval_ms(),
    {
        self.sweeper_interval_ms
    }

    /// One sweep at `now`: each candidate that the store offers at `now` is
    /// scheduled again, as if received anew (best effort; a refusal by the
    /// channel leaves it for the next sweep).
    pub fn sweep_at(&self, ingest: &mut IngestService, now: i64)
        ensures
            sweep_outcome(*old(ingest), *final(ingest), now),
    {
        proof {
            use_type_invariant(&ingest.store);
        }
        let ghost pre = ingest.store@;
        let ghost c0 = ingest.counters;
        let candidates = ingest.store.list_enqueue_candidates(now);
        let ghost cands = enqueue_candidates(pre, now);
        proof {
            let all = eligible_ids(pre.order, pre.records, now, pre.queue_stale_time_ms);
            lemma_eligible_ids_members(pre.order, pre.records, now, pre.queue_stale_time_ms);
            assert forall|k: int| 0 <= k < cands.len() implies pre.records.contains_key(
                #[trigger] cands[k],
            ) && eligible(pre.records[cands[k]], now, pre.queue_stale_time_ms) by {
                assert(cands[k] == all[k]);
                let j = choose|j: int| 0 <= j < pre.order.len() && pre.order[j] == all[k];
            }
            assert forall|a: int, b: int| 0 <= a < b < cands.len() implies cands[a] != cands[b] by {
                assert(cands[a] == all[a]);
                assert(cands[b] == all[b]);
            }
            assert(candidates@.map_values(|s: String| s@) == cands);
        }
        let n = candidates.len();
        let mut i: usize = 0;
        assert(cands.take(0) =~= Seq::<Seq<char>>::empty());
        while i < n
            invariant
                n == cands.len(),
                candidates@.map_values(|s: String| s@) == cands,
                i <= n,
                forall|k: int|
                    0 <= k < cands.len() ==> pre.records.contains_key(#[trigger] cands[k])
                        && eligible(pre.records[cands[k]], now, pre.queue_stale_time_ms),
                forall|a: int, b: int| 0 <= a < b < cands.len() ==> cands[a] != cands[b],
                ingest.store@ == mark_all_queued(pre, cands.take(i as int), now),
                ingest.store@.queue_stale_time_ms == pre.queue_stale_time_ms,
                forall|k: int|
                    i <= k < cands.len() ==> ingest.store@.records.contains_key(#[trigger] cands[k])
                        && ingest.store@.records[cands[k]] == pre.records[cands[k]],
                ingest.counters.ingested == c0.ingested,
                ingest.counters.deduped == c0.deduped,
                c0.enqueued <= ingest.counters.enqueued <= c0.enqueued + i,
                ingest.tx == old(ingest).tx,
                ingest.shutdown_tx == old(ingest).shutdown_tx,
            decreases n - i,
        {
            let id = candidates[i].clone();
            assert(id@ == cands[i as int]);
            let ghost before = ingest.store@;
            let _ = ingest.reserve_and_schedule_at(id, false, now);
            proof {
                assert(cands.take(i + 1).drop_last() =~= cands.take(i as int));
                assert(cands.take(i + 1).last() == cands[i as int]);
                assert(ingest.store@ == before.put(cands[i as int], mark_queued(before.records[cands[i as int]], now)));
                assert forall|k: int| i + 1 <= k < cands.len() implies ingest.store@.records.contains_key(
                    #[trigger] cands[k],
                ) && ingest.store@.records[cands[k]] == pre.records[cands[k]] by {
                    assert(cands[k] != cands[i as int]);
                    assert(before.records.contains_key(cands[k]));
                }
            }
            i = i + 1;
        }
        assert(cands.take(n as int) =~= cands);
    }

    /// `sweep_at` at the current time.
    pub fn sweep(&self, ingest: &mut IngestService)
        ensures
            exists|now: i64|
                0 <= now <= MAX_CLOCK_MS && #[trigger] sweep_outcome(
                    *old(ingest),
                    *final(ingest),
                    now,
                ),
    {
        let now = now_millis();
        self.sweep_at(ingest, now)
    }
}

} // verus!
