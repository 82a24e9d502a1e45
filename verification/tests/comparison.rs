use audio_compare::fft::{check_transform_length, zero_pad};
use audio_compare::filters::check_filter_parameters;
use audio_compare::scoring::{common_prefix, decide};
use audio_compare::{
    apply_shift, find_optimal_shift, AudioCompareParams, CompareError, Observation, Pipeline,
    Request, Scalar,
};
use rustfft::num_complex::Complex;
use rustfft::FftPlanner;

fn scalar(x: f32) -> Scalar {
    Scalar::from_bits(x.to_bits())
}

fn scalars(values: &[f32]) -> Vec<Scalar> {
    values.iter().map(|x| scalar(*x)).collect()
}

fn lowpass(signal: &[f32], cutoff: usize, sample_rate: usize) -> Result<Vec<f32>, CompareError> {
    check_filter_parameters(cutoff, sample_rate)?;
    let rc = 1.0 / (2.0 * std::f32::consts::PI * cutoff as f32);
    let dt = 1.0 / sample_rate as f32;
    let alpha = dt / (rc + dt);
    let mut out: Vec<f32> = Vec::with_capacity(signal.len());
    for (i, x) in signal.iter().enumerate() {
        let y = if i == 0 { *x } else { out[i - 1] + alpha * (*x - out[i - 1]) };
        out.push(y);
    }
    Ok(out)
}

fn cross_correlation(a: &[f32], b: &[f32], len: usize) -> Result<Vec<f32>, CompareError> {
    check_transform_length(len)?;
    let mut planner = FftPlanner::new();
    let forward = planner.plan_fft_forward(len);
    let lift = |s: Vec<f32>| -> Vec<Complex<f32>> {
        s.into_iter().map(|x| Complex { re: x, im: 0.0 }).collect()
    };
    let mut first = lift(zero_pad(a, len, 0.0));
    let mut second = lift(zero_pad(b, len, 0.0));
    forward.process(&mut first);
    forward.process(&mut second);
    let mut product: Vec<Complex<f32>> =
        first.iter().zip(second.iter()).map(|(x, y)| x.conj() * *y).collect();
    planner.plan_fft_inverse(len).process(&mut product);
    Ok(product.iter().map(|c| c.re).collect())
}

fn spectrum(signal: &[f32]) -> Result<Vec<f32>, CompareError> {
    check_transform_length(signal.len())?;
    let mut buffer: Vec<Complex<f32>> =
        signal.iter().map(|x| Complex { re: *x, im: 0.0 }).collect();
    FftPlanner::new().plan_fft_forward(signal.len()).process(&mut buffer);
    Ok(buffer.iter().map(|c| c.norm()).collect())
}

fn pearson(first: &[f32], second: &[f32]) -> (f32, f32) {
    let (s1, s2) = common_prefix(first, second);
    let mean1 = s1.iter().sum::<f32>() / s1.len() as f32;
    let mean2 = s2.iter().sum::<f32>() / s2.len() as f32;
    let num: f32 = s1.iter().zip(s2.iter()).map(|(a, b)| (a - mean1) * (b - mean2)).sum();
    let den1 = s1.iter().map(|a| (a - mean1).powi(2)).sum::<f32>().sqrt();
    let den2 = s2.iter().map(|b| (b - mean2).powi(2)).sum::<f32>().sqrt();
    let denominator = den1 * den2;
    (denominator, num / denominator)
}

fn compare(
    samples1: &[f32],
    samples2: &[f32],
    params: AudioCompareParams,
) -> Result<bool, CompareError> {
    let mut pipeline = Pipeline::begin(params, &scalars(samples1), &scalars(samples2));
    let mut request = pipeline.request();
    let mut filtered: (Vec<f32>, Vec<f32>) = (Vec::new(), Vec::new());
    let mut aligned: (Vec<f32>, Vec<f32>) = (Vec::new(), Vec::new());
    for _ in 0..8 {
        let observation = match request {
            Request::MeasureDurations { len1, len2, frequency } => {
                let duration1 = len1 as f32 / frequency as f32;
                let duration2 = len2 as f32 / frequency as f32;
                Observation::Durations { difference: scalar((duration1 - duration2).abs()) }
            }
            Request::Filter { cutoff, sample_rate } => {
                filtered = (
                    lowpass(samples1, cutoff, sample_rate)?,
                    lowpass(samples2, cutoff, sample_rate)?,
                );
                Observation::Filtered
            }
            Request::Correlate { len } => Observation::Correlated {
                correlation: scalars(&cross_correlation(&filtered.0, &filtered.1, len)?),
            },
            Request::Align { shift } => {
                aligned = apply_shift(&filtered.0, &filtered.1, shift)?;
                Observation::Aligned
            }
            Request::Score => {
                let (denominator, score) = pearson(&spectrum(&aligned.0)?, &spectrum(&aligned.1)?);
                Observation::Scored { denominator: scalar(denominator), score: scalar(score) }
            }
            Request::Report { outcome } => return outcome,
        };
        let (next, following) = pipeline.step(observation);
        pipeline = next;
        request = following;
    }
    unreachable!("a comparison has five stages")
}

fn sine(len: usize, period: usize, delay: usize) -> Vec<f32> {
    (0..len)
        .map(|i| {
            let phase = (i + len - delay) % period;
            (2.0 * std::f32::consts::PI * phase as f32 / period as f32).sin()
        })
        .collect()
}

fn chirp(len: usize) -> Vec<f32> {
    (0..len).map(|i| (0.002 * (i * i) as f32).sin() * 0.8 + (0.3 * i as f32).cos() * 0.1).collect()
}

#[test]
fn signal_is_similar_to_itself() {
    let filtered = lowpass(&chirp(500), 3000, 16000).unwrap();
    let own = spectrum(&filtered).unwrap();
    let (denominator, score) = pearson(&own, &own);
    assert!((score - 1.0).abs() < 1.0e-4, "score {score}");
    assert_eq!(decide(scalar(denominator), scalar(score), scalar(0.7)), Ok(true));
    assert_eq!(decide(scalar(denominator), scalar(score), scalar(0.999)), Ok(true));
}

#[test]
fn shifted_sine_peaks_at_its_lag() {
    // 1 Hz sampled at 64 Hz, four periods; one second of tolerance covers
    // exactly one period, so the peak within it is the lag itself.
    let (rate, len) = (64usize, 256usize);
    for k in [0usize, 1, 5, 17, 40, 62] {
        let first = sine(len, rate, 0);
        let second = sine(len, rate, k);
        let correlation = scalars(&cross_correlation(&first, &second, len).unwrap());
        let shift = find_optimal_shift(&correlation, 1, rate).unwrap();
        let index = shift + (len / 2) as isize;
        assert!((index - k as isize).abs() <= 1, "lag {k}: peak at {index}");
    }
}

#[test]
fn impulse_peaks_exactly_at_its_lag() {
    let len = 32usize;
    let mut first = vec![0.0f32; len];
    first[3] = 1.0;
    for k in [0usize, 1, 7, 15] {
        let mut second = vec![0.0f32; len];
        second[3 + k] = 1.0;
        let correlation = scalars(&cross_correlation(&first, &second, len).unwrap());
        assert_eq!(find_optimal_shift(&correlation, 1, 16), Ok(k as isize - 16));
    }
}

#[test]
fn clips_of_different_durations_do_not_match() {
    let params = AudioCompareParams::default();
    assert_eq!(compare(&vec![0.0; 100], &vec![0.0; 40_000], params), Ok(false));
    assert_eq!(compare(&vec![0.0; 40_000], &vec![0.0; 100], params), Ok(false));
    assert_eq!(compare(&[], &vec![0.5; 32_001], params), Ok(false));
}

#[test]
fn silent_clips_are_degenerate() {
    let params = AudioCompareParams::default();
    let silence = vec![0.0f32; 64];
    assert_eq!(compare(&silence, &silence, params), Err(CompareError::DegenerateSignal));
}

#[test]
fn single_sample_clips_are_degenerate() {
    // One sample has a spectrum of one bin, which cannot vary.
    let params = AudioCompareParams { shift_tolerance_seconds: 0, ..AudioCompareParams::default() };
    assert_eq!(compare(&[0.5], &[0.5], params), Err(CompareError::DegenerateSignal));
}

#[test]
fn lag_longer_than_the_shorter_clip_is_out_of_range() {
    // Ten samples against three at 4 Hz pass the duration check. The
    // correlation peaks at its first entry, which stands for a lag of -5.
    let params = AudioCompareParams { frequency: 4, ..AudioCompareParams::default() };
    let mut first = vec![0.0f32; 10];
    first[0] = 1.0;
    let second = [1.0f32, 0.0, 0.0];
    assert_eq!(compare(&first, &second, params), Err(CompareError::AlignmentOutOfRange));
}

#[test]
fn nan_sample_is_refused() {
    let params = AudioCompareParams::default();
    let clean = sine(64, 16, 0);
    let mut dirty = clean.clone();
    dirty[10] = f32::NAN;
    assert_eq!(compare(&clean, &dirty, params), Err(CompareError::NaNComparison));
    assert_eq!(compare(&dirty, &clean, params), Err(CompareError::NaNComparison));
}

#[test]
fn clips_of_different_durations_do_not_match_whatever_they_hold() {
    let params = AudioCompareParams::default();
    let mut dirty = vec![0.5f32; 64];
    dirty[10] = f32::NAN;
    assert_eq!(compare(&dirty, &vec![0.0; 40_000], params), Ok(false));
}

#[test]
fn constant_clips_with_a_peak_at_zero_frequency_match() {
    // The spectrum of a constant clip that is not silent is not flat: all
    // of it stands in the first bin.
    let params = AudioCompareParams::default();
    let level = vec![0.5f32; 64];
    assert_eq!(compare(&level, &level, params), Ok(true));
}

#[test]
fn unphysical_filter_is_refused() {
    let clip = sine(64, 16, 0);
    let params = AudioCompareParams { lowpass_cutoff: 0, ..AudioCompareParams::default() };
    assert_eq!(compare(&clip, &clip, params), Err(CompareError::InvalidParameter));
    let params = AudioCompareParams { frequency: 0, ..AudioCompareParams::default() };
    assert_eq!(compare(&clip, &clip, params), Err(CompareError::InvalidParameter));
}

#[test]
fn empty_clips_are_invalid_input() {
    assert_eq!(compare(&[], &[], AudioCompareParams::default()), Err(CompareError::InvalidInput));
}

#[test]
fn sine_matches_itself() {
    let clip = sine(1024, 16, 0);
    assert_eq!(compare(&clip, &clip, AudioCompareParams::default()), Ok(true));
}

#[test]
fn sine_does_not_match_a_chirp() {
    let params = AudioCompareParams {
        min_correlation: scalar(0.99),
        ..AudioCompareParams::default()
    };
    assert_eq!(compare(&sine(1024, 16, 0), &chirp(1024), params), Ok(false));
}
