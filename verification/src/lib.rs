//! Decides whether two recorded clips carry the same signal.
//!
//! The library holds the discrete side of the comparison: how many
//! correlation lags are searched and which one wins, how the two clips are
//! trimmed against each other, which inputs are refused, and in which order
//! the stages of a comparison follow one another. Sample values are carried
//! as IEEE-754 bit patterns; the arithmetic on them is done by the caller.

pub mod alignment;
pub mod correlation;
pub mod error;
pub mod fft;
pub mod filters;
pub mod params;
pub mod pipeline;
pub mod scalar;
pub mod scoring;

pub use alignment::apply_shift;
pub use correlation::find_optimal_shift;
pub use error::CompareError;
pub use params::AudioCompareParams;
pub use pipeline::{Observation, Pipeline, Request, Stage};
pub use scalar::Scalar;
