use crate::error::CompareError;
use vstd::prelude::*;

verus! {

/// A smoothing filter can be built for this cutoff, in hertz, at this sample
/// rate: neither is zero.
pub open spec fn filter_parameters_valid(cutoff: int, sample_rate: int) -> bool {
    cutoff > 0 && sample_rate > 0
}

/// Refuses a cutoff or a sample rate of zero, for which the smoothing
/// coefficient is not defined.
pub fn check_filter_parameters(cutoff: usize, sample_rate: usize) -> (r: Result<(), CompareError>)
    ensures
        r == if filter_parameters_valid(cutoff as int, sample_rate as int) {
            Ok::<(), CompareError>(())
        } else {
            Err::<(), CompareError>(CompareError::InvalidParameter)
        },
{
    if cutoff == 0 || sample_rate == 0 {
        Err(CompareError::InvalidParameter)
    } else {
        Ok(())
    }
}

} // verus!
