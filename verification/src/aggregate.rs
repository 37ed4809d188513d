//! Run-level aggregation: the three running totals, the final summary,
//! and the overall success decision.

use vstd::prelude::*;
use vstd::seq_lib::commutative_foldl;
use vstd::seq_lib::lemma_fold_left_permutation;
use crate::pipeline::FileResult;
use crate::pipeline::FileStatus;

verus! {

/// Aggregate over all per-file results of one run.
#[derive(Copy, Clone, Debug, PartialEq, Eq, Structural)]
pub struct RunSummary {
    /// Files whose pipeline finished without failing (including skips).
    pub succeeded: u64,
    /// Files whose invocation or replacement failed.
    pub failed: u64,
    /// Total bytes saved across all kept improvements.
    pub total_saved: u64,
}

/// One record's contribution to the running totals (succeeded, failed,
/// bytes saved): a failed file counts toward `failed`, every other
/// outcome — including a skip — toward `succeeded`.
pub open spec fn totals_step(t: (int, int, int), r: FileResult) -> (int, int, int) {
    (
        t.0 + if r.status == FileStatus::Failed {
            0int
        } else {
            1int
        },
        t.1 + if r.status == FileStatus::Failed {
            1int
        } else {
            0int
        },
        t.2 + r.bytes_saved,
    )
}

/// The exact (unclamped) totals over a sequence of results, in
/// submission order.
pub open spec fn spec_totals(rs: Seq<FileResult>) -> (int, int, int) {
    rs.fold_left((0int, 0int, 0int), |t: (int, int, int), r: FileResult| totals_step(t, r))
}

/// `x` clamped to the `u64` range, as the saturating total is.
pub open spec fn clamp_u64(x: int) -> int {
    if x > u64::MAX {
        u64::MAX as int
    } else {
        x
    }
}

/// The totals are order-independent: any two submission orders of the
/// same multiset of per-file results yield identical succeeded and
/// failed counts and identical total bytes saved.
pub proof fn lemma_totals_order_independent(a: Seq<FileResult>, b: Seq<FileResult>)
    requires
        a.to_multiset() == b.to_multiset(),
    ensures
        spec_totals(a) == spec_totals(b),
{
    let f = |t: (int, int, int), r: FileResult| totals_step(t, r);
    assert(commutative_foldl(f)) by {
        assert forall|x: FileResult, y: FileResult, v: (int, int, int)| #[trigger] f(
            f(v, x),
            y,
        ) == f(f(v, y), x) by {}
    }
    lemma_fold_left_permutation(a, b, f, (0int, 0int, 0int));
}

/// Order-independence at the aggregator: two aggregators that recorded
/// the same per-file results, in whatever orders, hold identical
/// totals — and so report identical summaries.
pub proof fn lemma_aggregator_order_independent(a: &RunAggregator, b: &RunAggregator)
    requires
        a.wf(),
        b.wf(),
        a.history().to_multiset() == b.history().to_multiset(),
    ensures
        spec_totals(a.history()) == spec_totals(b.history()),
{
    lemma_totals_order_independent(a.history(), b.history());
}

/// Accumulates per-file outcomes across the batch.
///
/// The counts are exact; the byte total saturates at `u64::MAX`.
pub struct RunAggregator {
    succeeded: u64,
    failed: u64,
    total_saved: u64,
    history: Ghost<Seq<FileResult>>,
}

impl RunAggregator {
    /// The results recorded so far, in submission order.
    pub closed spec fn history(&self) -> Seq<FileResult> {
        self.history@
    }

    /// The counters agree exactly with the totals over the recorded
    /// history (the byte total up to saturation).
    pub closed spec fn wf(&self) -> bool {
        &&& self.succeeded as int == spec_totals(self.history@).0
        &&& self.failed as int == spec_totals(self.history@).1
        &&& self.total_saved as int == clamp_u64(spec_totals(self.history@).2)
        &&& self.succeeded + self.failed == self.history@.len()
    }

    /// A fresh aggregator with nothing recorded.
    pub fn new() -> (a: RunAggregator)
        ensures
            a.wf(),
            a.history() == Seq::<FileResult>::empty(),
    {
        RunAggregator { succeeded: 0, failed: 0, total_saved: 0, history: Ghost(Seq::empty()) }
    }

    /// Folds one per-file result into the running totals.
    pub fn record(&mut self, r: FileResult)
        requires
            old(self).wf(),
            old(self).history().len() < u64::MAX,
        ensures
            final(self).wf(),
            final(self).history() == old(self).history().push(r),
    {
        proof {
            lemma_totals_push(self.history@, r);
        }
        match r.status {
            FileStatus::Failed => {
                self.failed = self.failed + 1;
            },
            _ => {
                self.succeeded = self.succeeded + 1;
            },
        }
        self.total_saved = self.total_saved.saturating_add(r.bytes_saved);
        proof {
            self.history@ = self.history@.push(r);
        }
    }

    /// The finalized summary of everything recorded.
    pub fn summary(&self) -> (s: RunSummary)
        requires
            self.wf(),
        ensures
            s.succeeded as int == spec_totals(self.history()).0,
            s.failed as int == spec_totals(self.history()).1,
            s.total_saved as int == clamp_u64(spec_totals(self.history()).2),
    {
        RunSummary { succeeded: self.succeeded, failed: self.failed, total_saved: self.total_saved }
    }
}

/// Appending one record steps the totals by exactly that record's
/// contribution.
pub proof fn lemma_totals_push(rs: Seq<FileResult>, r: FileResult)
    ensures
        spec_totals(rs.push(r)) == totals_step(spec_totals(rs), r),
        spec_totals(rs).0 >= 0,
        spec_totals(rs).1 >= 0,
        spec_totals(rs).2 >= 0,
    decreases rs.len(),
{
    assert(rs.push(r).drop_last() =~= rs);
    assert(rs.push(r).last() == r);
    if rs.len() > 0 {
        lemma_totals_push(rs.drop_last(), rs.last());
        assert(rs.drop_last().push(rs.last()) =~= rs);
    }
}

/// The overall run outcome: a run succeeds exactly when no file failed
/// and at least one candidate was discovered — a run whose every file
/// was a skip still succeeds, and a run with nothing to do fails.
pub fn overall_success(summary: &RunSummary, candidate_count: u64) -> (b: bool)
    ensures
        b == (summary.failed == 0 && candidate_count > 0),
{
    summary.failed == 0 && candidate_count > 0
}

} // verus!
