use crate::alignment::lag_magnitude;
use crate::error::CompareError;
use crate::scalar::{has_nan, Scalar};
use vstd::math::min;
use vstd::prelude::*;

verus! {

/// How many leading entries of a correlation of `len` lags are searched: the
/// tolerance in samples, or all of them where that is more.
pub open spec fn search_window(tolerance_seconds: int, rate: int, len: int) -> int {
    min(tolerance_seconds * rate, len)
}

/// `index` holds the largest value among the first `window` entries, and no
/// entry before it holds as much.
pub open spec fn is_peak(values: Seq<Scalar>, window: int, index: int) -> bool {
    &&& 0 <= index < window <= values.len()
    &&& forall|j: int| 0 <= j < window ==> (#[trigger] values[j]).key() <= values[index].key()
    &&& forall|j: int| 0 <= j < index ==> (#[trigger] values[j]).key() < values[index].key()
}

/// The position of the first largest value among the first `window`
/// entries, and 0 where nothing is searched.
pub open spec fn first_peak(values: Seq<Scalar>, window: int) -> int {
    if window <= 0 {
        0
    } else {
        choose|i: int| is_peak(values, window, i)
    }
}

/// The lag that a position in a circular correlation of `len` lags stands
/// for.
pub open spec fn lag_of_index(index: int, len: int) -> int {
    index - len / 2
}

/// The lag at which the second signal best matches the first, read off their
/// circular cross-correlation.
pub open spec fn optimal_shift(correlation: Seq<Scalar>, tolerance_seconds: int, rate: int) -> Result<
    int,
    CompareError,
> {
    let len = correlation.len() as int;
    let window = search_window(tolerance_seconds, rate, len);
    if len == 0 {
        Err(CompareError::InvalidInput)
    } else if has_nan(correlation.take(window)) {
        Err(CompareError::NaNComparison)
    } else {
        Ok(lag_of_index(first_peak(correlation, window), len))
    }
}

/// At most one position is the peak of a window.
pub proof fn lemma_peak_unique(values: Seq<Scalar>, window: int, i: int, j: int)
    requires
        is_peak(values, window, i),
        is_peak(values, window, j),
    ensures
        i == j,
{
    if i < j {
        assert(values[i].key() < values[j].key());
        assert(values[j].key() <= values[i].key());
    } else if j < i {
        assert(values[j].key() < values[i].key());
        assert(values[i].key() <= values[j].key());
    }
}

/// A position that is the peak of a window is the one that `first_peak`
/// names.
pub proof fn lemma_peak_is_first_peak(values: Seq<Scalar>, window: int, index: int)
    requires
        is_peak(values, window, index),
    ensures
        first_peak(values, window) == index,
{
    lemma_peak_unique(values, window, index, first_peak(values, window));
}

/// Every window that is not empty has a peak.
pub proof fn lemma_first_peak_is_peak(values: Seq<Scalar>, window: int)
    requires
        0 < window <= values.len(),
    ensures
        is_peak(values, window, first_peak(values, window)),
    decreases window,
{
    if window == 1 {
        assert(is_peak(values, window, 0));
    } else {
        lemma_first_peak_is_peak(values, window - 1);
        let before = first_peak(values, window - 1);
        if values[window - 1].key() > values[before].key() {
            assert(is_peak(values, window, window - 1));
        } else {
            assert(is_peak(values, window, before));
        }
    }
}

/// Where one entry of the searched window is larger than every other, the
/// estimated lag is the lag of that entry.
pub proof fn lemma_single_peak_gives_its_lag(
    correlation: Seq<Scalar>,
    tolerance_seconds: int,
    rate: int,
    k: int,
)
    requires
        0 <= k < search_window(tolerance_seconds, rate, correlation.len() as int),
        !has_nan(
            correlation.take(search_window(tolerance_seconds, rate, correlation.len() as int)),
        ),
        forall|j: int|
            0 <= j < search_window(tolerance_seconds, rate, correlation.len() as int) && j != k
                ==> (#[trigger] correlation[j]).key() < correlation[k].key(),
    ensures
        optimal_shift(correlation, tolerance_seconds, rate) == Ok::<int, CompareError>(
            k - correlation.len() / 2,
        ),
{
    let window = search_window(tolerance_seconds, rate, correlation.len() as int);
    assert(is_peak(correlation, window, k));
    lemma_peak_is_first_peak(correlation, window, k);
}

/// An estimated lag lies between the lag of the first entry and the lag of
/// the last entry searched.
pub proof fn lemma_shift_within_window(
    correlation: Seq<Scalar>,
    tolerance_seconds: int,
    rate: int,
)
    requires
        optimal_shift(correlation, tolerance_seconds, rate) is Ok,
    ensures
        ({
            let len = correlation.len() as int;
            let window = search_window(tolerance_seconds, rate, len);
            let shift = optimal_shift(correlation, tolerance_seconds, rate)->Ok_0;
            &&& lag_of_index(0, len) <= shift
            &&& window > 0 ==> shift < lag_of_index(window, len)
            &&& window <= 0 ==> shift == lag_of_index(0, len)
        }),
{
    let len = correlation.len() as int;
    let window = search_window(tolerance_seconds, rate, len);
    if window > 0 {
        lemma_first_peak_is_peak(correlation, window);
    }
}

/// An estimated lag is never longer than half the correlation it was read
/// off.
pub proof fn lemma_shift_is_at_most_half(
    correlation: Seq<Scalar>,
    tolerance_seconds: int,
    rate: int,
)
    requires
        optimal_shift(correlation, tolerance_seconds, rate) is Ok,
    ensures
        lag_magnitude(optimal_shift(correlation, tolerance_seconds, rate)->Ok_0)
            <= correlation.len() / 2,
{
    lemma_shift_within_window(correlation, tolerance_seconds, rate);
}

/// Counts the correlation entries to search.
pub fn search_window_len(shift_tolerance_seconds: usize, frequency: usize, len: usize) -> (window:
    usize)
    ensures
        window == search_window(shift_tolerance_seconds as int, frequency as int, len as int),
{
    match shift_tolerance_seconds.checked_mul(frequency) {
        Some(samples) => if samples <= len {
            samples
        } else {
            len
        },
        None => len,
    }
}

/// Finds the first largest value among the first `window` entries, or among
/// all of them where there are fewer.
///
/// Fails exactly when one of the entries searched is a NaN.
pub fn peak_index(values: &[Scalar], window: usize) -> (r: Result<usize, CompareError>)
    ensures
        match r {
            Ok(index) => {
                &&& !has_nan(values@.take(min(window as int, values@.len() as int)))
                &&& index == first_peak(values@, min(window as int, values@.len() as int))
            },
            Err(e) => {
                &&& e == CompareError::NaNComparison
                &&& has_nan(values@.take(min(window as int, values@.len() as int)))
            },
        },
{
    let n: usize = if window <= values.len() {
        window
    } else {
        values.len()
    };
    if n == 0 {
        return Ok(0);
    }
    if values[0].is_nan() {
        assert(values@.take(n as int)[0].nan());
        return Err(CompareError::NaNComparison);
    }
    let mut best: usize = 0;
    let mut best_key: i64 = values[0].order_key();
    let mut i: usize = 1;
    assert(is_peak(values@, 1, 0));
    while i < n
        invariant
            1 <= i <= n <= values@.len(),
            n == min(window as int, values@.len() as int),
            best < i,
            best_key == values@[best as int].key(),
            is_peak(values@, i as int, best as int),
            !has_nan(values@.take(i as int)),
        decreases n - i,
    {
        if values[i].is_nan() {
            assert(values@.take(n as int)[i as int].nan());
            return Err(CompareError::NaNComparison);
        }
        let k: i64 = values[i].order_key();
        proof {
            let before = values@.take(i as int);
            let after = values@.take(i + 1);
            assert forall|j: int| 0 <= j < after.len() implies !(#[trigger] after[j]).nan() by {
                if j < i {
                    assert(before[j] == after[j]);
                }
            }
        }
        if k > best_key {
            best = i;
            best_key = k;
        }
        i += 1;
    }
    proof {
        lemma_peak_is_first_peak(values@, n as int, best as int);
    }
    Ok(best)
}

/// Turns a position in a correlation of `len` lags into a signed lag.
pub fn index_to_lag(index: usize, len: usize) -> (lag: isize)
    requires
        index < len,
    ensures
        lag == lag_of_index(index as int, len as int),
{
    let half: usize = len / 2;
    if index >= half {
        (index - half) as isize
    } else {
        -((half - index) as isize)
    }
}

/// Estimates the lag between two signals from their circular
/// cross-correlation.
///
/// The first `shift_tolerance_seconds * frequency` lags are searched, or all
/// of them where the correlation is shorter. The first largest value wins,
/// and where nothing is searched the first entry does. An empty correlation
/// is refused, and so is a NaN among the entries searched.
pub fn find_optimal_shift(
    correlation: &[Scalar],
    shift_tolerance_seconds: usize,
    frequency: usize,
) -> (r: Result<isize, CompareError>)
    ensures
        match r {
            Ok(shift) => optimal_shift(
                correlation@,
                shift_tolerance_seconds as int,
                frequency as int,
            ) == Ok::<int, CompareError>(shift as int),
            Err(e) => optimal_shift(
                correlation@,
                shift_tolerance_seconds as int,
                frequency as int,
            ) == Err::<int, CompareError>(e),
        },
{
    let len = correlation.len();
    if len == 0 {
        return Err(CompareError::InvalidInput);
    }
    let window = search_window_len(shift_tolerance_seconds, frequency, len);
    match peak_index(correlation, window) {
        Err(e) => Err(e),
        Ok(index) => {
            proof {
                if window > 0 {
                    lemma_first_peak_is_peak(correlation@, window as int);
                }
            }
            Ok(index_to_lag(index, len))
        },
    }
}

} // verus!
