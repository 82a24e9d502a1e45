use crate::error::CompareError;
use crate::scalar::Scalar;
use vstd::math::min;
use vstd::prelude::*;
use vstd::slice::slice_subrange;

verus! {

/// What follows from a correlation coefficient and the denominator it was
/// divided by: no verdict where the denominator is zero, and otherwise
/// whether the coefficient reaches the threshold.
pub open spec fn score_verdict(denominator: Scalar, score: Scalar, min_correlation: Scalar) -> Result<
    bool,
    CompareError,
> {
    if denominator.zero() {
        Err(CompareError::DegenerateSignal)
    } else {
        Ok(score.at_least(min_correlation))
    }
}

/// Cuts two spectra down to the length of the shorter one, so that they can
/// be compared bin by bin.
pub fn common_prefix<'a, T>(first: &'a [T], second: &'a [T]) -> (r: (&'a [T], &'a [T]))
    ensures
        r.0@ == first@.take(min(first@.len() as int, second@.len() as int)),
        r.1@ == second@.take(min(first@.len() as int, second@.len() as int)),
{
    let n: usize = if first.len() <= second.len() {
        first.len()
    } else {
        second.len()
    };
    (slice_subrange(first, 0, n), slice_subrange(second, 0, n))
}

/// Refuses the denominator of a correlation coefficient that is zero, as it
/// is when one of the two spectra does not vary.
pub fn check_denominator(denominator: Scalar) -> (r: Result<(), CompareError>)
    ensures
        r == if denominator.zero() {
            Err::<(), CompareError>(CompareError::DegenerateSignal)
        } else {
            Ok::<(), CompareError>(())
        },
{
    if denominator.is_zero() {
        Err(CompareError::DegenerateSignal)
    } else {
        Ok(())
    }
}

/// Tells whether a similarity score is at or above the threshold.
pub fn meets_threshold(score: Scalar, min_correlation: Scalar) -> (accepted: bool)
    ensures
        accepted == score.at_least(min_correlation),
{
    score.ge(min_correlation)
}

/// Turns a correlation coefficient into a verdict.
pub fn decide(denominator: Scalar, score: Scalar, min_correlation: Scalar) -> (r: Result<
    bool,
    CompareError,
>)
    ensures
        r == score_verdict(denominator, score, min_correlation),
{
    match check_denominator(denominator) {
        Err(e) => Err(e),
        Ok(()) => Ok(meets_threshold(score, min_correlation)),
    }
}

/// A score equal to the threshold is accepted, and the nearest
/// representable score below the threshold is rejected.
pub proof fn lemma_threshold_boundary(score: Scalar, min_correlation: Scalar)
    requires
        !min_correlation.nan(),
        !min_correlation.lowest(),
    ensures
        min_correlation.at_least(min_correlation),
        score == min_correlation ==> score.at_least(min_correlation),
        !min_correlation.next_below().at_least(min_correlation),
        !score.nan() ==> (score.at_least(min_correlation) <==> score.key()
            >= min_correlation.key()),
{
    min_correlation.lemma_next_below();
}

/// A comparison of two spectra of which one does not vary gives no verdict.
pub proof fn lemma_zero_denominator_is_degenerate(
    denominator: Scalar,
    score: Scalar,
    min_correlation: Scalar,
)
    requires
        denominator.zero(),
    ensures
        score_verdict(denominator, score, min_correlation) == Err::<bool, CompareError>(
            CompareError::DegenerateSignal,
        ),
{
}

} // verus!
