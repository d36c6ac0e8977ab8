//! Double-precision numbers, held by their bit patterns.
//!
//! Reports and messages carry fractions and time stamps in IEEE 754 binary64. The engine
//! never computes with them; it only has to order them. A `Binary64` therefore keeps the
//! 64 bits of the number, and its order is stated over the integer that the bits stand for.

use vstd::prelude::*;
use vstd::arithmetic::power2::{lemma_pow2_pos, lemma_pow2_strictly_increases, lemma_pow2_unfold, pow2};

verus! {

/// The bit that holds the sign: two to the power 63.
pub const SIGN_BIT: u64 = 0x8000_0000_0000_0000;

/// The number of patterns of the 52 fraction bits: two to the power 52.
pub const FRACTION_SPAN: u64 = 0x10_0000_0000_0000;

/// The exponent field of the infinities and of the values that are no numbers.
pub const MAX_EXPONENT: u64 = 0x7FF;

/// The bits of positive infinity. The patterns above it, sign apart, are no numbers.
pub const INFINITY_BITS: u64 = 0x7FF0_0000_0000_0000;

/// A binary64 value, by its bits.
///
/// Two values are `==` when their bits are the same, which is finer than the order below:
/// the two zeros differ in their bits, and so do the many patterns that are no number.
#[derive(Debug, Clone, Copy, PartialEq, Eq, Structural)]
pub struct Binary64 {
    pub bits: u64,
}

impl Binary64 {
    /// The sign bit is set.
    pub open spec fn is_negative(self) -> bool {
        self.bits >= SIGN_BIT
    }

    /// The bits without the sign.
    pub open spec fn magnitude_bits(self) -> nat {
        (self.bits % SIGN_BIT) as nat
    }

    /// The exponent field.
    pub open spec fn exponent(self) -> nat {
        self.magnitude_bits() / (FRACTION_SPAN as nat)
    }

    /// The fraction field.
    pub open spec fn fraction(self) -> nat {
        self.magnitude_bits() % (FRACTION_SPAN as nat)
    }

    /// The bits stand for no number.
    pub open spec fn is_nan(self) -> bool {
        self.exponent() == MAX_EXPONENT && self.fraction() != 0
    }

    /// The absolute value, counted in units of two to the power -1074, the smallest
    /// positive binary64. An infinity counts as two to the power 2098, which is above
    /// every finite value.
    pub open spec fn magnitude(self) -> nat {
        if self.exponent() == 0 {
            self.fraction()
        } else {
            ((FRACTION_SPAN + self.fraction()) * pow2((self.exponent() - 1) as nat)) as nat
        }
    }

    /// The value in the same units, with its sign. Both zeros have the value 0.
    pub open spec fn value(self) -> int {
        if self.is_negative() {
            -(self.magnitude() as int)
        } else {
            self.magnitude() as int
        }
    }

    /// `self < other` in IEEE 754: both are numbers and the value of `self` is the smaller.
    pub open spec fn less_than(self, other: Binary64) -> bool {
        !self.is_nan() && !other.is_nan() && self.value() < other.value()
    }

    /// Whether the bits stand for no number.
    pub fn not_a_number(&self) -> (nan: bool)
        ensures
            nan == self.is_nan(),
    {
        self.bits % SIGN_BIT > INFINITY_BITS
    }

    /// Whether `self < other` in IEEE 754.
    pub fn lt(&self, other: &Binary64) -> (less: bool)
        ensures
            less == self.less_than(*other),
    {
        if self.not_a_number() || other.not_a_number() {
            return false;
        }
        let a: u64 = self.bits % SIGN_BIT;
        let b: u64 = other.bits % SIGN_BIT;
        proof {
            lemma_magnitude_order(*self, *other);
            lemma_magnitude_order(*other, *self);
            lemma_zero_magnitude(*self);
            lemma_zero_magnitude(*other);
        }
        if self.bits >= SIGN_BIT {
            if other.bits >= SIGN_BIT {
                b < a
            } else {
                a != 0 || b != 0
            }
        } else {
            if other.bits >= SIGN_BIT {
                false
            } else {
                a < b
            }
        }
    }
}

/// The magnitude is zero for the bits of a zero and for no others.
pub proof fn lemma_zero_magnitude(x: Binary64)
    ensures
        x.magnitude() == 0 <==> x.magnitude_bits() == 0,
{
    if x.exponent() != 0 {
        let scale = pow2((x.exponent() - 1) as nat);
        lemma_pow2_pos((x.exponent() - 1) as nat);
        assert((FRACTION_SPAN + x.fraction()) * scale > 0) by (nonlinear_arith)
            requires
                scale > 0,
                FRACTION_SPAN + x.fraction() > 0,
        ;
    }
}

/// The magnitudes are ordered as the bits without the sign are: where the bits of `x` are
/// below those of `y`, so is the magnitude.
pub proof fn lemma_magnitude_order(x: Binary64, y: Binary64)
    ensures
        x.magnitude_bits() < y.magnitude_bits() ==> x.magnitude() < y.magnitude(),
{
    if x.magnitude_bits() < y.magnitude_bits() {
        let span = FRACTION_SPAN as nat;
        let (ex, fx) = (x.exponent(), x.fraction());
        let (ey, fy) = (y.exponent(), y.fraction());
        assert(ex <= ey);
        assert(ey >= 1 || ex == ey);
        if ex == ey {
            assert(fx < fy);
            if ex != 0 {
                let scale = pow2((ex - 1) as nat);
                lemma_pow2_pos((ex - 1) as nat);
                assert((span + fx) * scale < (span + fy) * scale) by (nonlinear_arith)
                    requires
                        scale > 0,
                        fx < fy,
                ;
            }
        } else {
            // The magnitude of `x` stays below `span * pow2(ex)`, which that of `y` reaches.
            let low = pow2((ey - 1) as nat);
            if ex < ey - 1 {
                lemma_pow2_strictly_increases(ex, (ey - 1) as nat);
            }
            assert(pow2(ex) <= low);
            assert((span + fy) * low >= span * pow2(ex)) by (nonlinear_arith)
                requires
                    pow2(ex) <= low,
                    fy >= 0,
                    span > 0,
            ;
            if ex == 0 {
                assert(pow2(0) == 1) by {
                    vstd::arithmetic::power2::lemma2_to64();
                }
            } else {
                let scale = pow2((ex - 1) as nat);
                lemma_pow2_unfold(ex);
                assert(pow2(ex) == 2 * scale);
                lemma_pow2_pos((ex - 1) as nat);
                assert((span + fx) * scale < span * (2 * scale)) by (nonlinear_arith)
                    requires
                        scale > 0,
                        fx < span,
                ;
            }
        }
    }
}

} // verus!
