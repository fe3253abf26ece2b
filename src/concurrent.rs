use vstd::prelude::*;
use crate::error::RembedError;

verus! {

/// Where one item of a batch stands.
pub enum Slot<T> {
    /// Not yet launched, or launched and not yet back.
    Pending,
    /// Back with a result.
    Succeeded(T),
    /// Back with a failure, which is counted and left out of the results.
    Failed,
}

/// The results that came back, in input order.
pub open spec fn successes<T>(s: Seq<Slot<T>>) -> Seq<T>
    decreases s.len(),
{
    if s.len() == 0 {
        Seq::empty()
    } else {
        let before = successes(s.drop_last());
        match s.last() {
            Slot::Succeeded(v) => before.push(v),
            _ => before,
        }
    }
}

/// How many items are back.
pub open spec fn count_done<T>(s: Seq<Slot<T>>) -> nat
    decreases s.len(),
{
    if s.len() == 0 {
        0
    } else {
        count_done(s.drop_last()) + if s.last() is Pending {
            0nat
        } else {
            1nat
        }
    }
}

/// How many items came back with a failure.
pub open spec fn count_failed<T>(s: Seq<Slot<T>>) -> nat
    decreases s.len(),
{
    if s.len() == 0 {
        0
    } else {
        count_failed(s.drop_last()) + if s.last() is Failed {
            1nat
        } else {
            0nat
        }
    }
}

/// How many items a wave launches: as many as there are free places, or
/// items waiting, whichever is fewer.
pub open spec fn wave_size(total: nat, limit: nat, launched: nat, in_flight: nat) -> nat {
    let free = if in_flight >= limit {
        0
    } else {
        (limit - in_flight) as nat
    };
    let waiting = if launched >= total {
        0
    } else {
        (total - launched) as nat
    };
    if free < waiting {
        free
    } else {
        waiting
    }
}

/// The counts of a finished batch.
pub struct BatchCounts {
    pub total_processed: usize,
    pub successful: usize,
    pub failed: usize,
}

/// Runs the decisions of a bounded-concurrency batch: which item to launch
/// next, where each outcome goes, and what the batch returns. The caller
/// performs each launch and reports each outcome, in whatever order the
/// requests finish. At most `limit` items are in flight at once, an item is
/// launched as soon as a place is free, and the results come out in input
/// order whatever the order of completion.
pub struct BatchScheduler<T> {
    limit: usize,
    next: usize,
    done: usize,
    slots: Vec<Slot<T>>,
}

impl<T> BatchScheduler<T> {
    /// The number of items.
    pub closed spec fn total(&self) -> nat {
        self.slots@.len()
    }

    /// The most items in flight at once.
    pub closed spec fn limit(&self) -> nat {
        self.limit as nat
    }

    /// The number of items launched so far; they are the first ones.
    pub closed spec fn launched(&self) -> nat {
        self.next as nat
    }

    /// Where each item stands.
    pub closed spec fn slots(&self) -> Seq<Slot<T>> {
        self.slots@
    }

    /// The number of items is the number of slots.
    pub proof fn lemma_total_is_slot_count(&self)
        ensures
            self.slots().len() == self.total(),
    {
    }

    /// The number of items launched and not yet back.
    pub closed spec fn in_flight(&self) -> nat {
        (self.next - self.done) as nat
    }

    pub closed spec fn wf(&self) -> bool {
        &&& self.limit >= 1
        &&& self.slots@.len() <= usize::MAX
        &&& self.next <= self.slots@.len()
        &&& self.done == count_done(self.slots@)
        &&& self.done <= self.next
        &&& forall|i: int| self.next <= i < self.slots@.len() ==> self.slots@[i] is Pending
        &&& self.next - self.done <= self.limit
    }

    /// A scheduler for `total` items with at most `limit` in flight (a limit
    /// of zero counts as one). No items is an error: a batch never succeeds
    /// empty.
    pub fn start(total: usize, limit: usize) -> (r: Result<Self, RembedError>)
        ensures
            total == 0 ==> r is Err && r->Err_0 is EmptyInput,
            total > 0 ==> r is Ok && r->Ok_0.wf() && r->Ok_0.total() == total
                && r->Ok_0.slots().len() == total
                && r->Ok_0.launched() == 0 && r->Ok_0.in_flight() == 0 && r->Ok_0.limit() == (
            if limit == 0 {
                1
            } else {
                limit
            }) && forall|i: int| 0 <= i < total ==> r->Ok_0.slots()[i] is Pending,
    {
        if total == 0 {
            return Err(RembedError::EmptyInput);
        }
        let mut slots: Vec<Slot<T>> = Vec::new();
        let mut i: usize = 0;
        while i < total
            invariant
                i <= total,
                slots@.len() == i,
                forall|j: int| 0 <= j < i ==> slots@[j] is Pending,
                count_done(slots@) == 0,
            decreases total - i,
        {
            let ghost before = slots@;
            slots.push(Slot::Pending);
            assert(slots@.drop_last() == before);
            i = i + 1;
        }
        let limit = if limit == 0 {
            1
        } else {
            limit
        };
        Ok(BatchScheduler { limit, next: 0, done: 0, slots })
    }

    /// The item to launch now, if a place is free and an item is waiting.
    pub fn next_launch(&mut self) -> (r: Option<usize>)
        requires
            old(self).wf(),
        ensures
            final(self).wf(),
            final(self).total() == old(self).total(),
            final(self).limit() == old(self).limit(),
            final(self).slots() == old(self).slots(),
            old(self).in_flight() < old(self).limit() && old(self).launched() < old(self).total()
                ==> r == Some(old(self).launched() as usize) && final(self).launched()
                == old(self).launched() + 1 && final(self).in_flight() == old(self).in_flight()
                + 1,
            !(old(self).in_flight() < old(self).limit() && old(self).launched() < old(
                self,
            ).total()) ==> r is None && final(self).launched() == old(self).launched()
                && final(self).in_flight() == old(self).in_flight(),
    {
        if self.next - self.done < self.limit && self.next < self.slots.len() {
            let i = self.next;
            self.next = self.next + 1;
            Some(i)
        } else {
            None
        }
    }

    /// Launches every item that a free place allows now, in input order: the
    /// items from the first not yet launched, as many as there are free
    /// places or waiting items, whichever is fewer.
    pub fn launch_wave(&mut self) -> (r: Vec<usize>)
        requires
            old(self).wf(),
        ensures
            final(self).wf(),
            final(self).total() == old(self).total(),
            final(self).limit() == old(self).limit(),
            final(self).slots() == old(self).slots(),
            r@.len() == wave_size(old(self).total(), old(self).limit(), old(self).launched(), old(self).in_flight()),
            forall|i: int| 0 <= i < r@.len() ==> #[trigger] r@[i] == old(self).launched() + i,
            final(self).launched() == old(self).launched() + r@.len(),
            final(self).in_flight() == old(self).in_flight() + r@.len(),
    {
        let mut out: Vec<usize> = Vec::new();
        let ghost start = self.next as int;
        loop
            invariant
                self.wf(),
                self.total() == old(self).total(),
                self.limit() == old(self).limit(),
                self.slots() == old(self).slots(),
                self.next == start + out@.len(),
                self.in_flight() == old(self).in_flight() + out@.len(),
                start == old(self).launched(),
                out@.len() <= wave_size(old(self).total(), old(self).limit(), old(self).launched(), old(self).in_flight()),
                forall|i: int| 0 <= i < out@.len() ==> #[trigger] out@[i] == start + i,
            ensures
                out@.len() == wave_size(old(self).total(), old(self).limit(), old(self).launched(), old(self).in_flight()),
                self.wf(),
                self.total() == old(self).total(),
                self.limit() == old(self).limit(),
                self.slots() == old(self).slots(),
                self.next == start + out@.len(),
                self.in_flight() == old(self).in_flight() + out@.len(),
                forall|i: int| 0 <= i < out@.len() ==> #[trigger] out@[i] == start + i,
            decreases self.slots@.len() - self.next,
        {
            match self.next_launch() {
                Some(i) => out.push(i),
                None => break,
            }
        }
        out
    }

    /// Records what came back for the item at `index`: `Some` with its result,
    /// or `None` where it failed.
    pub fn complete(&mut self, index: usize, outcome: Option<T>)
        requires
            old(self).wf(),
            index < old(self).launched(),
            old(self).slots()[index as int] is Pending,
        ensures
            final(self).wf(),
            final(self).total() == old(self).total(),
            final(self).limit() == old(self).limit(),
            final(self).launched() == old(self).launched(),
            final(self).in_flight() + 1 == old(self).in_flight(),
            final(self).slots() == old(self).slots().update(
                index as int,
                match outcome {
                    Some(v) => Slot::Succeeded(v),
                    None => Slot::Failed,
                },
            ),
    {
        let ghost before = self.slots@;
        let slot = match outcome {
            Some(v) => Slot::Succeeded(v),
            None => Slot::Failed,
        };
        self.slots.set(index, slot);
        proof {
            lemma_count_done_update(before, index as int, self.slots@[index as int]);
            lemma_count_done_le_len(before);
            lemma_count_done_below(before, self.next as int, index as int);
        }
        self.done = self.done + 1;
        assert(self.next - self.done <= self.limit);
    }

    /// Whether every item is back.
    pub fn is_finished(&self) -> (r: bool)
        requires
            self.wf(),
        ensures
            r == (self.launched() == self.total() && self.in_flight() == 0),
    {
        self.next == self.slots.len() && self.done == self.next
    }

    /// The results in input order, without the failed items, and the counts.
    pub fn finish(self) -> (r: (Vec<T>, BatchCounts))
        requires
            self.wf(),
            self.launched() == self.total(),
            self.in_flight() == 0,
        ensures
            r.0@ == successes(self.slots()),
            r.1.total_processed == self.total(),
            r.1.successful == successes(self.slots()).len(),
            r.1.failed == count_failed(self.slots()),
            r.1.successful + r.1.failed == r.1.total_processed,
    {
        let ghost all = self.slots@;
        let n = self.slots.len();
        assert(count_done(all) == n);
        let mut rest = self.slots;
        let mut rev: Vec<Slot<T>> = Vec::new();
        while rest.len() > 0
            invariant
                all.len() == n,
                rest@ == all.subrange(0, rest@.len() as int),
                rev@.len() + rest@.len() == n,
                forall|j: int| 0 <= j < rev@.len() ==> rev@[j] == all[n - 1 - j],
            decreases rest@.len(),
        {
            let s = rest.pop().unwrap();
            rev.push(s);
        }
        let mut out: Vec<T> = Vec::new();
        let mut failed: usize = 0;
        let mut k: usize = 0;
        while k < n
            invariant
                all.len() == n,
                count_done(all) == n,
                k <= n,
                rev@.len() == n - k,
                forall|j: int| 0 <= j < rev@.len() ==> rev@[j] == all[n - 1 - j],
                out@ == successes(all.subrange(0, k as int)),
                failed == count_failed(all.subrange(0, k as int)),
                out@.len() + failed == k,
            decreases n - k,
        {
            let s = rev.pop().unwrap();
            assert(s == all[k as int]);
            assert(all.subrange(0, k + 1).drop_last() == all.subrange(0, k as int));
            match s {
                Slot::Succeeded(v) => {
                    out.push(v);
                },
                Slot::Failed => {
                    failed = failed + 1;
                },
                Slot::Pending => {
                    proof {
                        lemma_finished_none_pending(all, k as int);
                    }
                },
            }
            k = k + 1;
        }
        assert(all.subrange(0, n as int) == all);
        let successful = out.len();
        (out, BatchCounts { total_processed: n, successful, failed })
    }
}

proof fn lemma_count_done_le_len<T>(s: Seq<Slot<T>>)
    ensures
        count_done(s) <= s.len(),
    decreases s.len(),
{
    if s.len() > 0 {
        lemma_count_done_le_len(s.drop_last());
    }
}

proof fn lemma_count_done_below<T>(s: Seq<Slot<T>>, m: int, i: int)
    requires
        0 <= i < m <= s.len(),
        s[i] is Pending,
        forall|j: int| m <= j < s.len() ==> s[j] is Pending,
    ensures
        count_done(s) < m,
    decreases s.len(),
{
    if s.len() > m {
        lemma_count_done_below(s.drop_last(), m, i);
    } else if i == s.len() - 1 {
        lemma_count_done_le_len(s.drop_last());
    } else {
        lemma_count_done_below(s.drop_last(), m - 1, i);
    }
}

proof fn lemma_count_done_update<T>(s: Seq<Slot<T>>, i: int, v: Slot<T>)
    requires
        0 <= i < s.len(),
        s[i] is Pending,
        !(v is Pending),
    ensures
        count_done(s.update(i, v)) == count_done(s) + 1,
    decreases s.len(),
{
    let t = s.update(i, v);
    if i == s.len() - 1 {
        assert(t.drop_last() == s.drop_last());
    } else {
        assert(t.drop_last() == s.drop_last().update(i, v));
        lemma_count_done_update(s.drop_last(), i, v);
    }
}

proof fn lemma_finished_none_pending<T>(s: Seq<Slot<T>>, i: int)
    requires
        0 <= i < s.len(),
        count_done(s) == s.len(),
    ensures
        !(s[i] is Pending),
    decreases s.len(),
{
    lemma_count_done_le_len(s.drop_last());
    if i < s.len() - 1 {
        lemma_finished_none_pending(s.drop_last(), i);
    }
}

/// When no item failed, the result at each position is the outcome of the
/// item at that position, whatever order the requests finished in.
pub proof fn lemma_results_in_input_order<T>(s: Seq<Slot<T>>)
    requires
        forall|i: int| 0 <= i < s.len() ==> s[i] is Succeeded,
    ensures
        successes(s).len() == s.len(),
        forall|i: int| 0 <= i < s.len() ==> successes(s)[i] == s[i]->Succeeded_0,
    decreases s.len(),
{
    if s.len() > 0 {
        let d = s.drop_last();
        assert forall|i: int| 0 <= i < d.len() implies d[i] is Succeeded by {
            assert(d[i] == s[i]);
        }
        lemma_results_in_input_order(d);
    }
}

/// Timing and counts of one concurrent batch. Durations are in nanoseconds.
#[derive(Debug, Clone)]
pub struct ProcessingStats {
    pub total_processed: usize,
    pub successful: usize,
    pub failed: usize,
    pub total_duration_nanos: u64,
    pub avg_time_per_item_nanos: u64,
}

impl ProcessingStats {
    /// The statistics of a finished batch that took `total_duration_nanos`:
    /// the average is the whole duration divided by the items processed,
    /// rounded down, and zero where none were.
    pub fn from_counts(counts: &BatchCounts, total_duration_nanos: u64) -> (r: Self)
        ensures
            r.total_processed == counts.total_processed,
            r.successful == counts.successful,
            r.failed == counts.failed,
            r.total_duration_nanos == total_duration_nanos,
            counts.total_processed > 0 ==> r.avg_time_per_item_nanos == total_duration_nanos
                / (counts.total_processed as u64),
            counts.total_processed == 0 ==> r.avg_time_per_item_nanos == 0,
    {
        let avg = if counts.total_processed > 0 {
            total_duration_nanos / (counts.total_processed as u64)
        } else {
            0
        };
        ProcessingStats {
            total_processed: counts.total_processed,
            successful: counts.successful,
            failed: counts.failed,
            total_duration_nanos,
            avg_time_per_item_nanos: avg,
        }
    }
}

/// With every launched item back before the next wave (items of uniform
/// latency), wave `k` launches the items from `k * limit` on, and
/// `ceil(total / limit)` waves launch all `total` items and no fewer do: the
/// batch takes that many request latencies.
pub proof fn lemma_wave_count(total: nat, limit: nat, k: nat)
    requires
        limit >= 1,
        k * limit <= total,
    ensures
        wave_size(total, limit, k * limit, 0) == if total - k * limit < limit {
            (total - k * limit) as nat
        } else {
            limit
        },
        ((total + limit - 1) / limit as int) * limit >= total,
        total > 0 ==> (((total + limit - 1) / limit as int) - 1) * limit < total,
{
    let w = (total + limit - 1) / limit as int;
    assert(w * limit >= total) by (nonlinear_arith)
        requires
            w == (total + limit - 1) / limit as int,
            limit >= 1,
    ;
    if total > 0 {
        assert((w - 1) * limit < total) by (nonlinear_arith)
            requires
                w == (total + limit - 1) / limit as int,
                limit >= 1,
                total > 0,
        ;
    }
}

} // verus!
