use crate::alignment::{
    aligned_first_len, aligned_lengths, aligned_second_len, shift_fits, shift_in_range,
};
use crate::correlation::{find_optimal_shift, lemma_shift_is_at_most_half, optimal_shift};
use crate::error::CompareError;
use crate::fft::correlation_length;
use crate::filters::{check_filter_parameters, filter_parameters_valid};
use crate::params::AudioCompareParams;
use crate::scalar::{first_nan, has_nan, Scalar};
use crate::scoring::{decide, score_verdict};
use vstd::math::{max, min};
use vstd::prelude::*;

verus! {

/// Where a comparison stands.
#[derive(Clone, Copy, Debug, PartialEq, Eq, Structural)]
pub enum Stage {
    /// The durations of the two clips are being compared.
    DurationCheck,
    /// Both clips are being smoothed.
    Filtering,
    /// The smoothed clips are being correlated.
    ShiftEstimation,
    /// The smoothed clips are being trimmed by the estimated lag.
    Alignment { shift: isize },
    /// The spectra of the trimmed clips are being correlated.
    Scoring,
    /// The comparison has ended with a verdict.
    Finished { verdict: bool },
    /// The comparison was abandoned.
    Failed { error: CompareError },
}

/// What the caller found out by doing the work that was asked of it.
#[derive(Debug)]
pub enum Observation {
    /// The absolute difference of the two durations, in seconds.
    Durations { difference: Scalar },
    /// Both clips have been smoothed; their lengths are unchanged.
    Filtered,
    /// The circular cross-correlation of the smoothed clips.
    Correlated { correlation: Vec<Scalar> },
    /// Both smoothed clips have been trimmed.
    Aligned,
    /// The correlation coefficient of the two spectra, and the denominator
    /// it was divided by.
    Scored { denominator: Scalar, score: Scalar },
}

/// The work that a comparison waits for.
#[derive(Clone, Copy, Debug, PartialEq, Eq)]
pub enum Request {
    /// Measure the difference in duration of clips of these lengths.
    MeasureDurations { len1: usize, len2: usize, frequency: usize },
    /// Smooth both clips.
    Filter { cutoff: usize, sample_rate: usize },
    /// Correlate the smoothed clips, each padded to `len` samples.
    Correlate { len: usize },
    /// Trim the smoothed clips by this lag.
    Align { shift: isize },
    /// Correlate the spectra of the trimmed clips.
    Score,
    /// Nothing: the comparison is over.
    Report { outcome: Result<bool, CompareError> },
}

/// One comparison of two clips, from the check of their durations to the
/// verdict.
///
/// The comparison does no arithmetic on samples itself. It says what is to
/// be computed next, takes the result, and decides how to go on.
#[derive(Clone, Copy, Debug, PartialEq, Eq, Structural)]
pub struct Pipeline {
    pub params: AudioCompareParams,
    /// The number of samples of the first clip.
    pub len1: usize,
    /// The number of samples of the second clip.
    pub len2: usize,
    /// No sample of either clip is a NaN.
    pub clean: bool,
    pub stage: Stage,
}

/// What follows the check of the durations. Clips whose durations differ by
/// more than the limit do not match, and no more is asked about them.
/// Clips that go on to be analysed must hold no NaN, and the filter must be
/// one that can be built.
pub open spec fn after_duration_check(
    params: AudioCompareParams,
    clean: bool,
    difference: Scalar,
) -> Stage {
    if difference.greater(params.max_length_difference) {
        Stage::Finished { verdict: false }
    } else if !clean {
        Stage::Failed { error: CompareError::NaNComparison }
    } else if !filter_parameters_valid(params.lowpass_cutoff as int, params.frequency as int) {
        Stage::Failed { error: CompareError::InvalidParameter }
    } else {
        Stage::Filtering
    }
}

/// What follows the smoothing: two empty clips cannot be correlated.
pub open spec fn after_filtering(len1: int, len2: int) -> Stage {
    if max(len1, len2) == 0 {
        Stage::Failed { error: CompareError::InvalidInput }
    } else {
        Stage::ShiftEstimation
    }
}

/// What follows the correlation: the lag is estimated, and has to be no
/// longer than either clip.
pub open spec fn after_shift_estimation(
    params: AudioCompareParams,
    len1: int,
    len2: int,
    correlation: Seq<Scalar>,
) -> Stage {
    match optimal_shift(
        correlation,
        params.shift_tolerance_seconds as int,
        params.frequency as int,
    ) {
        Err(error) => Stage::Failed { error },
        Ok(shift) => if shift_fits(len1, len2, shift) {
            Stage::Alignment { shift: shift as isize }
        } else {
            Stage::Failed { error: CompareError::AlignmentOutOfRange }
        },
    }
}

/// What follows the trimming: a clip of which nothing is left has no
/// spectrum.
pub open spec fn after_alignment(len1: int, len2: int, shift: int) -> Stage {
    if !shift_fits(len1, len2, shift) {
        Stage::Failed { error: CompareError::AlignmentOutOfRange }
    } else if aligned_first_len(len1, len2, shift) == 0 || aligned_second_len(len1, len2, shift)
        == 0 {
        Stage::Failed { error: CompareError::InvalidInput }
    } else {
        Stage::Scoring
    }
}

/// What follows the scoring: the verdict, unless a spectrum did not vary.
pub open spec fn after_scoring(params: AudioCompareParams, denominator: Scalar, score: Scalar) -> Stage {
    match score_verdict(denominator, score, params.min_correlation) {
        Err(error) => Stage::Failed { error },
        Ok(verdict) => Stage::Finished { verdict },
    }
}

impl Stage {
    /// The comparison is over.
    pub open spec fn terminal(self) -> bool {
        self is Finished || self is Failed
    }

    /// How far a comparison in this stage has come.
    pub open spec fn rank(self) -> int {
        match self {
            Stage::DurationCheck => 0,
            Stage::Filtering => 1,
            Stage::ShiftEstimation => 2,
            Stage::Alignment { .. } => 3,
            Stage::Scoring => 4,
            Stage::Finished { .. } => 5,
            Stage::Failed { .. } => 5,
        }
    }

    /// Tells whether the comparison is over.
    pub fn is_terminal(&self) -> (over: bool)
        ensures
            over == self.terminal(),
    {
        match self {
            Stage::Finished { .. } => true,
            Stage::Failed { .. } => true,
            _ => false,
        }
    }
}

impl Pipeline {
    /// The comparison in another stage.
    pub open spec fn at(self, stage: Stage) -> Pipeline {
        Pipeline { stage, ..self }
    }

    /// The stage that follows when `observation` comes in. An observation
    /// that does not answer the pending request changes nothing, and
    /// neither does any observation once the comparison is over.
    pub open spec fn next_stage(self, observation: Observation) -> Stage {
        match (self.stage, observation) {
            (Stage::DurationCheck, Observation::Durations { difference }) => after_duration_check(
                self.params,
                self.clean,
                difference,
            ),
            (Stage::Filtering, Observation::Filtered) => after_filtering(
                self.len1 as int,
                self.len2 as int,
            ),
            (
                Stage::ShiftEstimation,
                Observation::Correlated { correlation },
            ) => after_shift_estimation(
                self.params,
                self.len1 as int,
                self.len2 as int,
                correlation@,
            ),
            (Stage::Alignment { shift }, Observation::Aligned) => after_alignment(
                self.len1 as int,
                self.len2 as int,
                shift as int,
            ),
            (Stage::Scoring, Observation::Scored { denominator, score }) => after_scoring(
                self.params,
                denominator,
                score,
            ),
            _ => self.stage,
        }
    }

    /// The comparison after `observation` has come in.
    pub open spec fn after(self, observation: Observation) -> Pipeline {
        self.at(self.next_stage(observation))
    }

    /// The work that the comparison waits for.
    pub open spec fn pending(self) -> Request {
        match self.stage {
            Stage::DurationCheck => Request::MeasureDurations {
                len1: self.len1,
                len2: self.len2,
                frequency: self.params.frequency,
            },
            Stage::Filtering => Request::Filter {
                cutoff: self.params.lowpass_cutoff,
                sample_rate: self.params.frequency,
            },
            Stage::ShiftEstimation => Request::Correlate {
                len: max(self.len1 as int, self.len2 as int) as usize,
            },
            Stage::Alignment { shift } => Request::Align { shift },
            Stage::Scoring => Request::Score,
            Stage::Finished { verdict } => Request::Report { outcome: Ok(verdict) },
            Stage::Failed { error } => Request::Report { outcome: Err(error) },
        }
    }

    /// Starts the comparison of two clips: takes their lengths, and looks
    /// for a NaN among their samples.
    pub fn begin(params: AudioCompareParams, samples1: &[Scalar], samples2: &[Scalar]) -> (pipeline:
        Pipeline)
        ensures
            pipeline == (Pipeline {
                params,
                len1: samples1@.len() as usize,
                len2: samples2@.len() as usize,
                clean: !has_nan(samples1@) && !has_nan(samples2@),
                stage: Stage::DurationCheck,
            }),
    {
        let clean = first_nan(samples1).is_none() && first_nan(samples2).is_none();
        Pipeline {
            params,
            len1: samples1.len(),
            len2: samples2.len(),
            clean,
            stage: Stage::DurationCheck,
        }
    }

    /// Says what the comparison waits for.
    pub fn request(&self) -> (request: Request)
        ensures
            request == self.pending(),
    {
        match self.stage {
            Stage::DurationCheck => Request::MeasureDurations {
                len1: self.len1,
                len2: self.len2,
                frequency: self.params.frequency,
            },
            Stage::Filtering => Request::Filter {
                cutoff: self.params.lowpass_cutoff,
                sample_rate: self.params.frequency,
            },
            Stage::ShiftEstimation => Request::Correlate {
                len: if self.len1 >= self.len2 {
                    self.len1
                } else {
                    self.len2
                },
            },
            Stage::Alignment { shift } => Request::Align { shift },
            Stage::Scoring => Request::Score,
            Stage::Finished { verdict } => Request::Report { outcome: Ok(verdict) },
            Stage::Failed { error } => Request::Report { outcome: Err(error) },
        }
    }

    /// The verdict or the failure, once the comparison is over.
    pub fn outcome(&self) -> (outcome: Option<Result<bool, CompareError>>)
        ensures
            outcome == match self.stage {
                Stage::Finished { verdict } => Some(Ok::<bool, CompareError>(verdict)),
                Stage::Failed { error } => Some(Err::<bool, CompareError>(error)),
                _ => None,
            },
    {
        match self.stage {
            Stage::Finished { verdict } => Some(Ok(verdict)),
            Stage::Failed { error } => Some(Err(error)),
            _ => None,
        }
    }

    /// Takes in what the caller found out, and says what to do next.
    pub fn step(self, observation: Observation) -> (r: (Pipeline, Request))
        ensures
            r.0 == self.after(observation),
            r.1 == r.0.pending(),
    {
        let stage = match (self.stage, observation) {
            (Stage::DurationCheck, Observation::Durations { difference }) => {
                if difference.gt(self.params.max_length_difference) {
                    Stage::Finished { verdict: false }
                } else if !self.clean {
                    Stage::Failed { error: CompareError::NaNComparison }
                } else {
                    match check_filter_parameters(self.params.lowpass_cutoff, self.params.frequency) {
                        Err(error) => Stage::Failed { error },
                        Ok(()) => Stage::Filtering,
                    }
                }
            },
            (Stage::Filtering, Observation::Filtered) => {
                match correlation_length(self.len1, self.len2) {
                    Err(error) => Stage::Failed { error },
                    Ok(_) => Stage::ShiftEstimation,
                }
            },
            (Stage::ShiftEstimation, Observation::Correlated { correlation }) => {
                match find_optimal_shift(
                    correlation.as_slice(),
                    self.params.shift_tolerance_seconds,
                    self.params.frequency,
                ) {
                    Err(error) => Stage::Failed { error },
                    Ok(shift) => if shift_in_range(self.len1, self.len2, shift) {
                        Stage::Alignment { shift }
                    } else {
                        Stage::Failed { error: CompareError::AlignmentOutOfRange }
                    },
                }
            },
            (Stage::Alignment { shift }, Observation::Aligned) => {
                match aligned_lengths(self.len1, self.len2, shift) {
                    Err(error) => Stage::Failed { error },
                    Ok((n1, n2)) => if n1 == 0 || n2 == 0 {
                        Stage::Failed { error: CompareError::InvalidInput }
                    } else {
                        Stage::Scoring
                    },
                }
            },
            (Stage::Scoring, Observation::Scored { denominator, score }) => {
                match decide(denominator, score, self.params.min_correlation) {
                    Err(error) => Stage::Failed { error },
                    Ok(verdict) => Stage::Finished { verdict },
                }
            },
            (stage, _) => stage,
        };
        let next = Pipeline {
            params: self.params,
            len1: self.len1,
            len2: self.len2,
            clean: self.clean,
            stage,
        };
        let request = next.request();
        (next, request)
    }
}

/// Clips whose durations differ by more than the limit are told apart at
/// once: the verdict is "no match", whatever the clips hold, and no further
/// work is asked for.
pub proof fn lemma_duration_gate(pipeline: Pipeline, difference: Scalar)
    requires
        pipeline.stage == Stage::DurationCheck,
        difference.greater(pipeline.params.max_length_difference),
    ensures
        pipeline.after(Observation::Durations { difference }).stage == (Stage::Finished {
            verdict: false,
        }),
        pipeline.after(Observation::Durations { difference }).pending() == (Request::Report {
            outcome: Ok(false),
        }),
{
}

/// Once a comparison is over, nothing changes it: the verdict stands, and
/// the first failure is the one that is reported.
pub proof fn lemma_terminal_is_final(pipeline: Pipeline, observation: Observation)
    requires
        pipeline.stage.terminal(),
    ensures
        pipeline.after(observation) == pipeline,
        pipeline.stage matches Stage::Failed { error } ==> pipeline.after(observation).pending()
            == (Request::Report { outcome: Err(error) }),
        pipeline.stage matches Stage::Finished { verdict } ==> pipeline.after(
            observation,
        ).pending() == (Request::Report { outcome: Ok(verdict) }),
{
}

/// The stages follow one another in their order. A step leaves the
/// comparison where it is, moves it to the next stage, or ends it; it never
/// goes back, and it changes nothing but the stage.
pub proof fn lemma_stages_are_sequential(pipeline: Pipeline, observation: Observation)
    ensures
        pipeline.after(observation) == pipeline.at(pipeline.after(observation).stage),
        ({
            let before = pipeline.stage;
            let after = pipeline.after(observation).stage;
            ||| after == before
            ||| after.terminal()
            ||| after.rank() == before.rank() + 1
        }),
        pipeline.after(observation).stage.rank() >= pipeline.stage.rank(),
{
}

/// Clips that hold a NaN are never analysed: once their durations have
/// passed the check, the comparison ends with `NaNComparison`.
pub proof fn lemma_nan_is_refused_before_analysis(pipeline: Pipeline, difference: Scalar)
    requires
        pipeline.stage == Stage::DurationCheck,
        !pipeline.clean,
        !difference.greater(pipeline.params.max_length_difference),
    ensures
        pipeline.after(Observation::Durations { difference }).stage == (Stage::Failed {
            error: CompareError::NaNComparison,
        }),
{
}

/// A verdict is reached in two places only: at the check of the durations,
/// where it is "no match", and at the end of the scoring.
pub proof fn lemma_verdict_origin(pipeline: Pipeline, observation: Observation)
    requires
        !pipeline.stage.terminal(),
        pipeline.after(observation).stage is Finished,
    ensures
        pipeline.stage == Stage::DurationCheck || pipeline.stage == Stage::Scoring,
        pipeline.stage == Stage::DurationCheck ==> pipeline.after(observation).stage == (
        Stage::Finished { verdict: false }),
{
}

/// An estimated lag that is longer than one of the clips ends the
/// comparison with `AlignmentOutOfRange`; no trimming is asked for.
pub proof fn lemma_lag_out_of_range_fails(pipeline: Pipeline, correlation: Vec<Scalar>, shift: int)
    requires
        pipeline.stage == Stage::ShiftEstimation,
        optimal_shift(
            correlation@,
            pipeline.params.shift_tolerance_seconds as int,
            pipeline.params.frequency as int,
        ) == Ok::<int, CompareError>(shift),
        !shift_fits(pipeline.len1 as int, pipeline.len2 as int, shift),
    ensures
        pipeline.after(Observation::Correlated { correlation }).stage == (Stage::Failed {
            error: CompareError::AlignmentOutOfRange,
        }),
{
}

/// The estimated lag fits whenever the shorter clip is at least half as long
/// as the longer one: such clips never end with `AlignmentOutOfRange`.
pub proof fn lemma_similar_clips_can_be_aligned(pipeline: Pipeline, correlation: Vec<Scalar>)
    requires
        pipeline.stage == Stage::ShiftEstimation,
        correlation@.len() == max(pipeline.len1 as int, pipeline.len2 as int),
        min(pipeline.len1 as int, pipeline.len2 as int) >= max(
            pipeline.len1 as int,
            pipeline.len2 as int,
        ) / 2,
    ensures
        pipeline.after(Observation::Correlated { correlation }).stage != (Stage::Failed {
            error: CompareError::AlignmentOutOfRange,
        }),
{
    let shift = optimal_shift(
        correlation@,
        pipeline.params.shift_tolerance_seconds as int,
        pipeline.params.frequency as int,
    );
    if shift is Ok {
        lemma_shift_is_at_most_half(
            correlation@,
            pipeline.params.shift_tolerance_seconds as int,
            pipeline.params.frequency as int,
        );
    }
}

/// Clips of equal length always get as far as the scoring, once a lag has
/// been estimated for them: the lag fits, and trimming leaves at least half
/// of each clip.
pub proof fn lemma_equal_clips_reach_scoring(
    pipeline: Pipeline,
    correlation: Vec<Scalar>,
    shift: int,
)
    requires
        pipeline.stage == Stage::ShiftEstimation,
        pipeline.len1 == pipeline.len2,
        correlation@.len() == pipeline.len1,
        optimal_shift(
            correlation@,
            pipeline.params.shift_tolerance_seconds as int,
            pipeline.params.frequency as int,
        ) == Ok::<int, CompareError>(shift),
    ensures
        pipeline.after(Observation::Correlated { correlation }).stage == (Stage::Alignment {
            shift: shift as isize,
        }),
        pipeline.after(Observation::Correlated { correlation }).after(Observation::Aligned).stage
            == Stage::Scoring,
        2 * aligned_first_len(pipeline.len1 as int, pipeline.len2 as int, shift)
            >= pipeline.len1,
        aligned_first_len(pipeline.len1 as int, pipeline.len2 as int, shift) == aligned_second_len(
            pipeline.len1 as int,
            pipeline.len2 as int,
            shift,
        ),
{
    lemma_shift_is_at_most_half(
        correlation@,
        pipeline.params.shift_tolerance_seconds as int,
        pipeline.params.frequency as int,
    );
}

/// Spectra of which one does not vary end the comparison with
/// `DegenerateSignal`, whatever score was handed in with them.
pub proof fn lemma_flat_spectrum_fails(pipeline: Pipeline, denominator: Scalar, score: Scalar)
    requires
        pipeline.stage == Stage::Scoring,
        denominator.zero(),
    ensures
        pipeline.after(Observation::Scored { denominator, score }).stage == (Stage::Failed {
            error: CompareError::DegenerateSignal,
        }),
{
}

/// Where both spectra vary, the verdict is whether the score is at or
/// above the threshold.
pub proof fn lemma_verdict_is_threshold_test(
    pipeline: Pipeline,
    denominator: Scalar,
    score: Scalar,
)
    requires
        pipeline.stage == Stage::Scoring,
        !denominator.zero(),
    ensures
        pipeline.after(Observation::Scored { denominator, score }).stage == (Stage::Finished {
            verdict: score.at_least(pipeline.params.min_correlation),
        }),
{
}

} // verus!
