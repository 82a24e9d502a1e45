use vstd::prelude::*;

verus! {

/// Why a comparison was abandoned.
#[derive(Clone, Copy, Debug, PartialEq, Eq, Structural)]
pub enum CompareError {
    /// An empty sequence was supplied where the transform needs samples.
    InvalidInput,
    /// The smoothing filter was given a zero cutoff or a zero sample rate.
    InvalidParameter,
    /// The estimated lag is longer than one of the two clips.
    AlignmentOutOfRange,
    /// A spectrum has no variation, so the correlation coefficient has a
    /// zero denominator.
    DegenerateSignal,
    /// A NaN stands among the values that would have to be ordered.
    NaNComparison,
}

} // verus!
