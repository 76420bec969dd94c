//! Progress of a transfer, as a percentage handed to a reporter that may ask
//! to stop.

use vstd::prelude::*;

verus! {

/// The percentage reported when `indexed` of `total` objects are indexed:
/// the floor of the ratio times one hundred, held to the range of `i32`.
/// Nothing of nothing is zero percent; something of nothing is reported as
/// the largest value.
pub open spec fn percent_spec(indexed: int, total: int) -> int {
    if total <= 0 {
        if indexed <= 0 {
            0
        } else {
            i32::MAX as int
        }
    } else if indexed * 100 / total > i32::MAX {
        i32::MAX as int
    } else {
        indexed * 100 / total
    }
}

/// Computes the percentage to report for `indexed` of `total` objects.
pub fn progress_percent(indexed: usize, total: usize) -> (p: i32)
    ensures
        p == percent_spec(indexed as int, total as int),
        0 <= p,
        0 < total && indexed <= total ==> p <= 100,
        0 < total && indexed == total ==> p == 100,
{
    if total == 0 {
        if indexed == 0 {
            0
        } else {
            i32::MAX
        }
    } else {
        let scaled: u128 = (indexed as u128) * 100;
        let ratio: u128 = scaled / (total as u128);
        assert(ratio == indexed as int * 100 / total as int);
        assert(0 < total && indexed <= total ==> indexed as int * 100 / total as int <= 100)
            by (nonlinear_arith);
        assert(0 < total && indexed == total ==> indexed as int * 100 / total as int == 100)
            by (nonlinear_arith);
        if ratio > i32::MAX as u128 {
            i32::MAX
        } else {
            ratio as i32
        }
    }
}

/// Hands the percentage for `indexed` of `total` objects to the reporter and
/// returns its answer: `true` to go on, `false` to stop. A stop is also noted
/// in `stopped`, which is never reset here.
pub fn forward_progress<F: Fn(i32) -> bool>(
    indexed: usize,
    total: usize,
    reporter: &F,
    stopped: &mut bool,
) -> (go_on: bool)
    requires
        forall|p: i32| call_requires(*reporter, (p,)),
    ensures
        call_ensures(*reporter, (percent_spec(indexed as int, total as int) as i32,), go_on),
        *final(stopped) == (*old(stopped) || !go_on),
{
    let go_on = reporter(progress_percent(indexed, total));
    if !go_on {
        *stopped = true;
    }
    go_on
}

/// The percentage never decreases when more objects are indexed.
pub proof fn lemma_percent_monotonic(a: int, b: int, total: int)
    requires
        0 <= a <= b,
        0 < total,
    ensures
        percent_spec(a, total) <= percent_spec(b, total),
{
    assert(a * 100 / total <= b * 100 / total) by (nonlinear_arith)
        requires
            0 <= a <= b,
            0 < total,
    ;
}

/// The percentage lies between zero and one hundred whenever the indexed
/// objects are among the total, and reaches one hundred exactly when all are
/// indexed.
pub proof fn lemma_percent_bounds(indexed: int, total: int)
    requires
        0 <= indexed <= total,
        0 < total,
    ensures
        0 <= percent_spec(indexed, total) <= 100,
        percent_spec(indexed, total) == 100 <==> indexed == total,
{
    assert(0 <= indexed * 100 / total <= 100) by (nonlinear_arith)
        requires
            0 <= indexed <= total,
            0 < total,
    ;
    assert(indexed * 100 / total == 100 <==> indexed == total) by (nonlinear_arith)
        requires
            0 <= indexed <= total,
            0 < total,
    ;
}

} // verus!
