//! Batch progress: the whole-percent figure reported after each candidate,
//! and its monotonicity across a run.
use vstd::prelude::*;
use vstd::arithmetic::div_mod::{lemma_div_is_ordered, lemma_div_multiples_vanish};
use vstd::arithmetic::mul::lemma_mul_inequality;

verus! {

/// The percentage reported for candidate `index` of `total`, in whole
/// percent, rounded down.
pub open spec fn spec_percent(index: int, total: int) -> int {
    index * 100 / total
}

/// Computes the progress percentage for candidate `index` of `total`.
pub fn progress_percent(index: u64, total: u64) -> (r: u64)
    requires
        0 < total,
        index <= total,
    ensures
        r == spec_percent(index as int, total as int),
        r <= 100,
{
    let wide: u128 = (index as u128) * 100 / (total as u128);
    proof {
        lemma_mul_inequality(index as int, total as int, 100);
        lemma_div_is_ordered(index as int * 100, total as int * 100, total as int);
        lemma_div_multiples_vanish(100, total as int);
    }
    wide as u64
}

/// One progress report: candidate `index` of `total` and the derived
/// whole-percent figure, recomputed after each candidate whether it was
/// processed or skipped.
pub struct BatchProgress {
    pub index: u64,
    pub total: u64,
    pub percent: u64,
}

/// Builds the report for candidate `index` of `total`.
pub fn batch_progress(index: u64, total: u64) -> (r: BatchProgress)
    requires
        0 < total,
        index <= total,
    ensures
        r.index == index,
        r.total == total,
        r.percent == spec_percent(index as int, total as int),
{
    BatchProgress { index, total, percent: progress_percent(index, total) }
}

/// The percentage always lies between 0 and 100.
pub proof fn lemma_percent_bounded(i: int, total: int)
    requires
        0 < total,
        0 <= i <= total,
    ensures
        0 <= spec_percent(i, total) <= 100,
{
    lemma_mul_inequality(i, total, 100);
    lemma_div_is_ordered(0, i * 100, total);
    lemma_div_is_ordered(i * 100, total * 100, total);
    lemma_div_multiples_vanish(100, total);
    lemma_div_multiples_vanish(0, total);
}

/// Progress is monotonically non-decreasing across the run, whatever each
/// candidate's outcome was: a later index never reports a smaller percentage.
pub proof fn lemma_progress_monotone(i: int, j: int, total: int)
    requires
        0 < total,
        0 <= i <= j,
    ensures
        spec_percent(i, total) <= spec_percent(j, total),
{
    lemma_mul_inequality(i, j, 100);
    lemma_div_is_ordered(i * 100, j * 100, total);
}

} // verus!
