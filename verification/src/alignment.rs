use crate::error::CompareError;
use vstd::math::min;
use vstd::prelude::*;
use vstd::slice::{slice_subrange, slice_to_vec};

verus! {

/// The number of samples that a lag moves a clip by, whatever its direction.
pub open spec fn lag_magnitude(shift: int) -> int {
    if shift >= 0 {
        shift
    } else {
        -shift
    }
}

/// The lag is no longer than either clip.
pub open spec fn shift_fits(len1: int, len2: int, shift: int) -> bool {
    lag_magnitude(shift) <= len1 && lag_magnitude(shift) <= len2
}

/// How many samples of the first clip remain after trimming.
pub open spec fn aligned_first_len(len1: int, len2: int, shift: int) -> int {
    if shift > 0 {
        len1 - shift
    } else {
        min(len1, len2 + shift)
    }
}

/// How many samples of the second clip remain after trimming.
pub open spec fn aligned_second_len(len1: int, len2: int, shift: int) -> int {
    if shift > 0 {
        min(len2, len1 - shift)
    } else {
        len2 + shift
    }
}

/// The first clip after trimming. A positive lag drops its first `shift`
/// samples. Otherwise it is cut down to the length of the second clip less
/// the lag, and left whole if it is shorter than that already.
pub open spec fn aligned_first<T>(audio1: Seq<T>, audio2: Seq<T>, shift: int) -> Seq<T> {
    if shift > 0 {
        audio1.subrange(shift, audio1.len() as int)
    } else {
        audio1.take(aligned_first_len(audio1.len() as int, audio2.len() as int, shift))
    }
}

/// The second clip after trimming. A positive lag cuts it down to the length
/// of the first clip less the lag, and leaves it whole if it is shorter than
/// that already. Otherwise its first `-shift` samples are dropped.
pub open spec fn aligned_second<T>(audio1: Seq<T>, audio2: Seq<T>, shift: int) -> Seq<T> {
    if shift > 0 {
        audio2.take(aligned_second_len(audio1.len() as int, audio2.len() as int, shift))
    } else {
        audio2.subrange(-shift, audio2.len() as int)
    }
}

/// The magnitude of a lag as an unsigned count.
pub fn shift_magnitude(shift: isize) -> (m: usize)
    ensures
        m == lag_magnitude(shift as int),
{
    if shift >= 0 {
        shift as usize
    } else if shift == isize::MIN {
        (isize::MAX as usize) + 1
    } else {
        (-shift) as usize
    }
}

/// Tells whether a lag can be applied to clips of the given lengths.
pub fn shift_in_range(len1: usize, len2: usize, shift: isize) -> (fits: bool)
    ensures
        fits == shift_fits(len1 as int, len2 as int, shift as int),
{
    let m = shift_magnitude(shift);
    m <= len1 && m <= len2
}

/// The lengths that `apply_shift` leaves of clips of the given lengths.
pub fn aligned_lengths(len1: usize, len2: usize, shift: isize) -> (r: Result<
    (usize, usize),
    CompareError,
>)
    ensures
        match r {
            Ok((n1, n2)) => {
                &&& shift_fits(len1 as int, len2 as int, shift as int)
                &&& n1 == aligned_first_len(len1 as int, len2 as int, shift as int)
                &&& n2 == aligned_second_len(len1 as int, len2 as int, shift as int)
            },
            Err(e) => {
                &&& e == CompareError::AlignmentOutOfRange
                &&& !shift_fits(len1 as int, len2 as int, shift as int)
            },
        },
{
    let m = shift_magnitude(shift);
    if m > len1 || m > len2 {
        return Err(CompareError::AlignmentOutOfRange);
    }
    if shift > 0 {
        let rest = len1 - m;
        Ok((rest, if len2 <= rest { len2 } else { rest }))
    } else {
        let rest = len2 - m;
        Ok((if len1 <= rest { len1 } else { rest }, rest))
    }
}

/// Trims two clips so that they overlap in time once the second is taken to
/// lag the first by `shift` samples.
///
/// Fails, and touches neither clip, exactly when the lag is longer than one
/// of them.
pub fn apply_shift<T: Copy>(audio1: &[T], audio2: &[T], shift: isize) -> (r: Result<
    (Vec<T>, Vec<T>),
    CompareError,
>)
    ensures
        match r {
            Ok((first, second)) => {
                &&& shift_fits(audio1@.len() as int, audio2@.len() as int, shift as int)
                &&& first@ == aligned_first(audio1@, audio2@, shift as int)
                &&& second@ == aligned_second(audio1@, audio2@, shift as int)
            },
            Err(e) => {
                &&& e == CompareError::AlignmentOutOfRange
                &&& !shift_fits(audio1@.len() as int, audio2@.len() as int, shift as int)
            },
        },
{
    let m = shift_magnitude(shift);
    match aligned_lengths(audio1.len(), audio2.len(), shift) {
        Err(e) => Err(e),
        Ok((n1, n2)) => {
            if shift > 0 {
                let first = slice_to_vec(slice_subrange(audio1, m, audio1.len()));
                let second = slice_to_vec(slice_subrange(audio2, 0, n2));
                Ok((first, second))
            } else {
                let first = slice_to_vec(slice_subrange(audio1, 0, n1));
                let second = slice_to_vec(slice_subrange(audio2, m, audio2.len()));
                Ok((first, second))
            }
        },
    }
}

/// What is left of the two clips has the lengths that `aligned_first_len`
/// and `aligned_second_len` give, and neither is longer than the other
/// where the clips were equally long.
pub proof fn lemma_aligned_lengths<T>(audio1: Seq<T>, audio2: Seq<T>, shift: int)
    requires
        shift_fits(audio1.len() as int, audio2.len() as int, shift),
    ensures
        aligned_first(audio1, audio2, shift).len() == aligned_first_len(
            audio1.len() as int,
            audio2.len() as int,
            shift,
        ),
        aligned_second(audio1, audio2, shift).len() == aligned_second_len(
            audio1.len() as int,
            audio2.len() as int,
            shift,
        ),
        aligned_first(audio1, audio2, shift).len() <= audio1.len(),
        aligned_second(audio1, audio2, shift).len() <= audio2.len(),
        audio1.len() == audio2.len() ==> aligned_first(audio1, audio2, shift).len()
            == aligned_second(audio1, audio2, shift).len() == audio1.len() - lag_magnitude(shift),
{
}

/// After trimming, samples at the same position overlap in time: the one
/// of the first clip stood `shift` samples later in its clip than the one of
/// the second clip stood in its own.
pub proof fn lemma_aligned_samples_overlap<T>(audio1: Seq<T>, audio2: Seq<T>, shift: int, i: int)
    requires
        shift_fits(audio1.len() as int, audio2.len() as int, shift),
        0 <= i < aligned_first(audio1, audio2, shift).len(),
        i < aligned_second(audio1, audio2, shift).len(),
    ensures
        shift > 0 ==> aligned_first(audio1, audio2, shift)[i] == audio1[i + shift]
            && aligned_second(audio1, audio2, shift)[i] == audio2[i],
        shift <= 0 ==> aligned_first(audio1, audio2, shift)[i] == audio1[i] && aligned_second(
            audio1,
            audio2,
            shift,
        )[i] == audio2[i - shift],
{
}

/// A lag of zero trims nothing off clips of equal length.
pub proof fn lemma_zero_shift_keeps_equal_clips<T>(audio1: Seq<T>, audio2: Seq<T>)
    requires
        audio1.len() == audio2.len(),
    ensures
        aligned_first(audio1, audio2, 0) == audio1,
        aligned_second(audio1, audio2, 0) == audio2,
{
    assert(aligned_first(audio1, audio2, 0) =~= audio1);
    assert(aligned_second(audio1, audio2, 0) =~= audio2);
}

} // verus!
