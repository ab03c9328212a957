//! Exact incremental mean: the accumulator keeps the running rating total
//! and count, so folding a value is a single exact addition and the mean is
//! the total divided by the count, with no precision lost at any count.

use vstd::prelude::*;

verus! {

/// Sum of a sequence of ratings, in hundredths of a rating point.
pub open spec fn sum_of(vs: Seq<u32>) -> int
    decreases vs.len(),
{
    if vs.len() == 0 {
        0
    } else {
        sum_of(vs.drop_last()) + vs.last()
    }
}

/// Incremental mean accumulator, seeded from a game's persisted vote count
/// and rating total.
///
/// The mean itself is never stored: with `mean == total / n`, the
/// incremental-mean recurrence `mean' = mean + (value - mean) / (n + 1)`
/// is exactly `total' = total + value` together with `n' = n + 1`, and in
/// that form every fold is exact regardless of how many values came before.
#[derive(Debug, Clone, Copy, PartialEq, Eq, Structural)]
pub struct RunningAverage {
    /// Number of ratings folded so far, seed included.
    pub n: u32,
    /// Exact sum of the folded ratings, in hundredths.
    pub total: u64,
}

impl RunningAverage {
    pub fn new(n: u32, total: u64) -> (a: RunningAverage)
        ensures
            a.n == n,
            a.total == total,
    {
        RunningAverage { n, total }
    }

    /// Fold one rating into the mean.
    pub fn add(&mut self, value: u32)
        requires
            old(self).n < u32::MAX,
            old(self).total + value <= u64::MAX,
        ensures
            final(self).n == old(self).n + 1,
            final(self).total == old(self).total + value,
    {
        self.n = self.n + 1;
        self.total = self.total + value as u64;
    }

    pub fn count(&self) -> (c: u32)
        ensures
            c == self.n,
    {
        self.n
    }

    pub fn total(&self) -> (t: u64)
        ensures
            t == self.total,
    {
        self.total
    }
}

/// The `(count, total)` state after folding `vs` one value at a time.
pub open spec fn folded(n0: int, total0: int, vs: Seq<u32>) -> (int, int)
    decreases vs.len(),
{
    if vs.len() == 0 {
        (n0, total0)
    } else {
        let prev = folded(n0, total0, vs.drop_last());
        (prev.0 + 1, prev.1 + vs.last())
    }
}

/// Folding values one at a time yields the same mean as folding them in a
/// single batch: the count ends at the seed count plus the number of values,
/// and the total at the seed total plus their sum, so the running mean
/// `total / count` equals the batch mean `(total0 + sum) / (n0 + len)` —
/// exactly, not within a tolerance, since the state is integral.
pub proof fn lemma_fold_matches_batch(n0: int, total0: int, vs: Seq<u32>)
    ensures
        folded(n0, total0, vs) == (n0 + vs.len(), total0 + sum_of(vs)),
    decreases vs.len(),
{
    if vs.len() > 0 {
        lemma_fold_matches_batch(n0, total0, vs.drop_last());
    }
}

} // verus!
