use vstd::prelude::*;

verus! {

/// The bit that carries the sign of a single-precision value.
pub const SIGN_BIT: u32 = 0x8000_0000;

/// The pattern of positive infinity. A magnitude above it encodes a NaN.
pub const INFINITY_BITS: u32 = 0x7f80_0000;

/// A single-precision IEEE-754 value, held as its 32-bit pattern.
///
/// The library never computes with such a value. It only needs to know
/// whether it is a NaN, whether it is zero, and how it compares with another
/// one, and all three can be read off the pattern.
#[derive(Clone, Copy, Debug, PartialEq, Eq, Structural)]
pub struct Scalar {
    pub bits: u32,
}

impl Scalar {
    /// The pattern with the sign bit cleared.
    pub open spec fn magnitude(self) -> int {
        if self.bits >= SIGN_BIT {
            self.bits - SIGN_BIT
        } else {
            self.bits as int
        }
    }

    /// The sign bit is set.
    pub open spec fn negative(self) -> bool {
        self.bits >= SIGN_BIT
    }

    /// The value is a NaN: all exponent bits set and a nonzero fraction.
    pub open spec fn nan(self) -> bool {
        self.magnitude() > INFINITY_BITS
    }

    /// The value is positive or negative zero.
    pub open spec fn zero(self) -> bool {
        self.magnitude() == 0
    }

    /// The place of the value in numeric order.
    ///
    /// Among values that are not NaN, a larger key is a larger number, and
    /// neighbouring keys are neighbouring representable numbers. Both zeros
    /// have key 0.
    pub open spec fn key(self) -> int {
        if self.negative() {
            -self.magnitude()
        } else {
            self.magnitude()
        }
    }

    /// `self > other` as IEEE-754 defines it: false as soon as one side is
    /// a NaN.
    pub open spec fn greater(self, other: Scalar) -> bool {
        !self.nan() && !other.nan() && self.key() > other.key()
    }

    /// `self >= other` as IEEE-754 defines it: false as soon as one side is
    /// a NaN.
    pub open spec fn at_least(self, other: Scalar) -> bool {
        !self.nan() && !other.nan() && self.key() >= other.key()
    }

    /// The value is negative infinity, below which no value lies.
    pub open spec fn lowest(self) -> bool {
        self.bits == SIGN_BIT + INFINITY_BITS
    }

    /// The nearest representable value below this one. Below either zero
    /// lies the smallest negative value. A NaN and negative infinity have
    /// nothing below them and stand for themselves.
    pub open spec fn next_below(self) -> Scalar {
        if self.nan() || self.lowest() {
            self
        } else if self.zero() {
            Scalar { bits: (SIGN_BIT + 1) as u32 }
        } else if self.negative() {
            Scalar { bits: (self.bits + 1) as u32 }
        } else {
            Scalar { bits: (self.bits - 1) as u32 }
        }
    }

    /// The value below a value that is neither a NaN nor negative infinity
    /// is no NaN, and comes directly before it in numeric order.
    pub proof fn lemma_next_below(self)
        requires
            !self.nan(),
            !self.lowest(),
        ensures
            !self.next_below().nan(),
            self.next_below().key() == self.key() - 1,
    {
    }

    /// Two values that are not NaN and have the same key are the same
    /// number: the same pattern, or the two zeros.
    pub proof fn lemma_key_names_the_number(self, other: Scalar)
        requires
            !self.nan(),
            !other.nan(),
            self.key() == other.key(),
        ensures
            self == other || (self.zero() && other.zero()),
    {
    }

    /// Takes a value by its pattern.
    pub fn from_bits(bits: u32) -> (s: Scalar)
        ensures
            s.bits == bits,
    {
        Scalar { bits }
    }

    /// Gives the pattern back.
    pub fn to_bits(self) -> (bits: u32)
        ensures
            bits == self.bits,
    {
        self.bits
    }

    fn magnitude_bits(self) -> (m: u32)
        ensures
            m == self.magnitude(),
            m < SIGN_BIT,
    {
        if self.bits >= SIGN_BIT {
            self.bits - SIGN_BIT
        } else {
            self.bits
        }
    }

    /// Tells whether the value is a NaN.
    pub fn is_nan(self) -> (b: bool)
        ensures
            b == self.nan(),
    {
        self.magnitude_bits() > INFINITY_BITS
    }

    /// Tells whether the value is one of the two zeros.
    pub fn is_zero(self) -> (b: bool)
        ensures
            b == self.zero(),
    {
        self.magnitude_bits() == 0
    }

    /// Computes the place of the value in numeric order.
    pub fn order_key(self) -> (k: i64)
        ensures
            k == self.key(),
    {
        let m: i64 = self.magnitude_bits() as i64;
        if self.bits >= SIGN_BIT {
            -m
        } else {
            m
        }
    }

    /// Steps down to the nearest representable value.
    pub fn next_down(self) -> (below: Scalar)
        ensures
            below == self.next_below(),
    {
        if self.is_nan() || self.bits == SIGN_BIT + INFINITY_BITS {
            self
        } else if self.is_zero() {
            Scalar { bits: SIGN_BIT + 1 }
        } else if self.bits >= SIGN_BIT {
            Scalar { bits: self.bits + 1 }
        } else {
            Scalar { bits: self.bits - 1 }
        }
    }

    /// Tells whether the value is greater than `other`.
    pub fn gt(self, other: Scalar) -> (b: bool)
        ensures
            b == self.greater(other),
    {
        !self.is_nan() && !other.is_nan() && self.order_key() > other.order_key()
    }

    /// Tells whether the value is greater than or equal to `other`.
    pub fn ge(self, other: Scalar) -> (b: bool)
        ensures
            b == self.at_least(other),
    {
        !self.is_nan() && !other.is_nan() && self.order_key() >= other.order_key()
    }
}

/// Some value of the sequence is a NaN.
pub open spec fn has_nan(values: Seq<Scalar>) -> bool {
    exists|i: int| 0 <= i < values.len() && (#[trigger] values[i]).nan()
}

/// The position of the first NaN, if there is one.
pub fn first_nan(values: &[Scalar]) -> (found: Option<usize>)
    ensures
        match found {
            Some(i) => i < values.len() && values[i as int].nan() && !has_nan(
                values@.take(i as int),
            ),
            None => !has_nan(values@),
        },
{
    let mut i: usize = 0;
    while i < values.len()
        invariant
            i <= values.len(),
            !has_nan(values@.take(i as int)),
        decreases values.len() - i,
    {
        if values[i].is_nan() {
            return Some(i);
        }
        proof {
            let before = values@.take(i as int);
            let after = values@.take(i + 1);
            assert forall|j: int| 0 <= j < after.len() implies !(#[trigger] after[j]).nan() by {
                if j < i {
                    assert(before[j] == after[j]);
                }
            }
        }
        i += 1;
    }
    proof {
        assert(values@.take(values.len() as int) =~= values@);
    }
    None
}

} // verus!
