use crate::error::CompareError;
use vstd::math::{max, min};
use vstd::prelude::*;

verus! {

/// A signal brought to `len` samples: cut off there if it is longer, and
/// otherwise followed by as many copies of `fill` as are missing.
pub open spec fn padded<T>(signal: Seq<T>, len: int, fill: T) -> Seq<T> {
    if len <= signal.len() {
        signal.take(len)
    } else {
        signal + Seq::new((len - signal.len()) as nat, |i: int| fill)
    }
}

/// Refuses the length of a sequence that cannot be transformed: a transform
/// needs at least one sample.
pub fn check_transform_length(len: usize) -> (r: Result<(), CompareError>)
    ensures
        r == if len == 0 {
            Err::<(), CompareError>(CompareError::InvalidInput)
        } else {
            Ok::<(), CompareError>(())
        },
{
    if len == 0 {
        Err(CompareError::InvalidInput)
    } else {
        Ok(())
    }
}

/// The number of points of the transforms behind a cross-correlation of two
/// signals: the length of the longer one. Fails exactly when both are empty.
pub fn correlation_length(len1: usize, len2: usize) -> (r: Result<usize, CompareError>)
    ensures
        r == if max(len1 as int, len2 as int) == 0 {
            Err::<usize, CompareError>(CompareError::InvalidInput)
        } else {
            Ok::<usize, CompareError>(max(len1 as int, len2 as int) as usize)
        },
{
    let len: usize = if len1 >= len2 {
        len1
    } else {
        len2
    };
    match check_transform_length(len) {
        Err(e) => Err(e),
        Ok(()) => Ok(len),
    }
}

/// Copies a signal and brings the copy to `len` samples, filling with `zero`.
pub fn zero_pad<T: Copy>(signal: &[T], len: usize, zero: T) -> (out: Vec<T>)
    ensures
        out@ == padded(signal@, len as int, zero),
{
    let kept: usize = if len <= signal.len() {
        len
    } else {
        signal.len()
    };
    let mut out: Vec<T> = Vec::new();
    let mut i: usize = 0;
    while i < kept
        invariant
            i <= kept <= signal@.len(),
            out@ == signal@.take(i as int),
        decreases kept - i,
    {
        out.push(signal[i]);
        assert(out@ =~= signal@.take(i + 1));
        i += 1;
    }
    while i < len
        invariant
            kept <= i <= len,
            kept == min(len as int, signal@.len() as int),
            out@ == padded(signal@, i as int, zero),
        decreases len - i,
    {
        out.push(zero);
        assert(out@ =~= padded(signal@, i + 1, zero));
        i += 1;
    }
    out
}

} // verus!
