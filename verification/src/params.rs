use crate::scalar::Scalar;
use vstd::prelude::*;

verus! {

/// The pattern of 2.0, the default for the longest accepted difference in
/// duration.
pub const DEFAULT_MAX_LENGTH_DIFFERENCE_BITS: u32 = 0x4000_0000;

/// The pattern of the single-precision value nearest to 0.7, the default for
/// the lowest accepted similarity score.
pub const DEFAULT_MIN_CORRELATION_BITS: u32 = 0x3f33_3333;

/// The default cutoff of the smoothing filter, in hertz.
pub const DEFAULT_LOWPASS_CUTOFF: usize = 3000;

/// The default for the longest lag searched, in seconds.
pub const DEFAULT_SHIFT_TOLERANCE_SECONDS: usize = 2;

/// The default sample rate, in hertz.
pub const DEFAULT_FREQUENCY: usize = 16000;

/// The thresholds of one comparison.
#[derive(Clone, Copy, Debug, PartialEq, Eq, Structural)]
pub struct AudioCompareParams {
    /// The longest difference in duration, in seconds, at which the two
    /// clips are still analysed.
    pub max_length_difference: Scalar,
    /// The similarity score from which on the clips count as the same.
    pub min_correlation: Scalar,
    /// The cutoff of the smoothing filter, in hertz.
    pub lowpass_cutoff: usize,
    /// The longest lag that is searched, in seconds.
    pub shift_tolerance_seconds: usize,
    /// The sample rate of both clips, in hertz.
    pub frequency: usize,
}

/// The thresholds used where the caller sets none.
pub open spec fn default_params() -> AudioCompareParams {
    AudioCompareParams {
        max_length_difference: Scalar { bits: DEFAULT_MAX_LENGTH_DIFFERENCE_BITS },
        min_correlation: Scalar { bits: DEFAULT_MIN_CORRELATION_BITS },
        lowpass_cutoff: DEFAULT_LOWPASS_CUTOFF,
        shift_tolerance_seconds: DEFAULT_SHIFT_TOLERANCE_SECONDS,
        frequency: DEFAULT_FREQUENCY,
    }
}

impl Default for AudioCompareParams {
    fn default() -> (params: Self)
        ensures
            params == default_params(),
    {
        AudioCompareParams {
            max_length_difference: Scalar { bits: DEFAULT_MAX_LENGTH_DIFFERENCE_BITS },
            min_correlation: Scalar { bits: DEFAULT_MIN_CORRELATION_BITS },
            lowpass_cutoff: DEFAULT_LOWPASS_CUTOFF,
            shift_tolerance_seconds: DEFAULT_SHIFT_TOLERANCE_SECONDS,
            frequency: DEFAULT_FREQUENCY,
        }
    }
}

} // verus!
