//! Double-precision numbers as their IEEE 754 bit patterns.
//!
//! A pattern has a sign bit, eleven exponent bits and fifty-two fraction
//! bits. The model below reads a pattern as an exact integer multiple of the
//! smallest subnormal, so that "positive" and "less than" are statements about
//! numbers and the executable tests on bits are proved against them.

use vstd::prelude::*;
use vstd::arithmetic::power2::{pow2, lemma_pow2_pos, lemma_pow2_unfold, lemma_pow2_strictly_increases};

verus! {

/// The sign bit of a pattern.
pub const SIGN_BIT: u64 = 0x8000_0000_0000_0000;

/// The pattern of positive infinity: every exponent bit set, no fraction bit.
pub const INFINITY_BITS: u64 = 0x7FF0_0000_0000_0000;

/// The pattern of negative infinity.
pub const NEGATIVE_INFINITY_BITS: u64 = 0xFFF0_0000_0000_0000;

/// The pattern of the smallest positive normal number.
pub const SMALLEST_NORMAL_BITS: u64 = 0x0010_0000_0000_0000;

/// The weight of the lowest exponent bit, which is also the leading bit that a
/// normal number's significand carries without storing it.
pub const HIDDEN_BIT: u64 = 0x0010_0000_0000_0000;

/// A double-precision number, held as its bit pattern. Two values are equal
/// when their patterns are: a NaN equals itself and the two zeros differ.
#[derive(Clone, Copy, Debug, PartialEq, Eq, Structural)]
pub struct Binary64 {
    pub bits: u64,
}

impl Binary64 {
    /// The pattern with its sign bit cleared.
    pub open spec fn magnitude_bits(self) -> u64 {
        if self.bits >= SIGN_BIT {
            (self.bits - SIGN_BIT) as u64
        } else {
            self.bits
        }
    }

    /// Whether the sign bit is set. True of negative zero and of half the NaNs.
    pub open spec fn sign_negative(self) -> bool {
        self.bits >= SIGN_BIT
    }

    /// Not a number.
    pub open spec fn nan(self) -> bool {
        self.magnitude_bits() > INFINITY_BITS
    }

    /// Positive or negative infinity.
    pub open spec fn infinite(self) -> bool {
        self.magnitude_bits() == INFINITY_BITS
    }

    /// Zero, subnormal or normal.
    pub open spec fn finite(self) -> bool {
        self.magnitude_bits() < INFINITY_BITS
    }

    /// The eleven exponent bits, as a number.
    pub open spec fn exponent_field(self) -> nat {
        (self.magnitude_bits() / HIDDEN_BIT) as nat
    }

    /// The fifty-two fraction bits, as a number.
    pub open spec fn fraction_field(self) -> nat {
        (self.magnitude_bits() % HIDDEN_BIT) as nat
    }

    /// The significand as an integer: the fraction bits, with the hidden bit
    /// in front of them unless the exponent field is zero.
    pub open spec fn significand(self) -> nat {
        if self.exponent_field() == 0 {
            self.fraction_field()
        } else {
            HIDDEN_BIT as nat + self.fraction_field()
        }
    }

    /// The power of two by which the significand is multiplied, counted from
    /// the weight of the smallest subnormal.
    pub open spec fn scale(self) -> nat {
        if self.exponent_field() == 0 {
            0
        } else {
            (self.exponent_field() - 1) as nat
        }
    }

    /// The absolute value in units of the smallest subnormal. Exact for every
    /// finite pattern. An infinity gets the first magnitude beyond the largest
    /// finite one, which keeps the order; for a NaN the number means nothing.
    pub open spec fn magnitude(self) -> nat {
        self.significand() * pow2(self.scale())
    }

    /// The number in units of the smallest subnormal: the magnitude with the
    /// sign applied. Both zeros have the value zero.
    pub open spec fn value(self) -> int {
        if self.sign_negative() {
            -(self.magnitude() as int)
        } else {
            self.magnitude() as int
        }
    }

    /// The number with the given pattern.
    pub fn from_bits(bits: u64) -> (number: Binary64)
        ensures
            number.bits == bits,
    {
        Binary64 { bits }
    }

    /// The pattern of this number.
    pub fn to_bits(self) -> (bits: u64)
        ensures
            bits == self.bits,
    {
        self.bits
    }

    /// Positive zero.
    pub fn zero() -> (number: Binary64)
        ensures
            number.bits == 0,
            number.finite(),
            number.value() == 0,
    {
        proof {
            lemma_magnitude_zero(Binary64 { bits: 0 });
        }
        Binary64 { bits: 0 }
    }

    /// Positive infinity.
    pub fn infinity() -> (number: Binary64)
        ensures
            number.bits == INFINITY_BITS,
            number.infinite(),
            !number.sign_negative(),
    {
        Binary64 { bits: INFINITY_BITS }
    }

    fn abs_bits(self) -> (bits: u64)
        ensures
            bits == self.magnitude_bits(),
    {
        if self.bits >= SIGN_BIT {
            self.bits - SIGN_BIT
        } else {
            self.bits
        }
    }

    /// Whether the sign bit is set.
    pub fn is_sign_negative(self) -> (negative: bool)
        ensures
            negative == self.sign_negative(),
    {
        self.bits >= SIGN_BIT
    }

    /// Whether this is a NaN.
    pub fn is_nan(self) -> (nan: bool)
        ensures
            nan == self.nan(),
    {
        self.abs_bits() > INFINITY_BITS
    }

    /// Whether this is an infinity.
    pub fn is_infinite(self) -> (infinite: bool)
        ensures
            infinite == self.infinite(),
    {
        self.abs_bits() == INFINITY_BITS
    }

    /// Whether this is neither an infinity nor a NaN.
    pub fn is_finite(self) -> (finite: bool)
        ensures
            finite == self.finite(),
    {
        self.abs_bits() < INFINITY_BITS
    }

    /// Whether this is one of the two zeros.
    pub fn is_zero(self) -> (zero: bool)
        ensures
            zero == (self.value() == 0),
    {
        proof {
            lemma_magnitude_zero(self);
        }
        self.abs_bits() == 0
    }

    /// Whether this is a number greater than zero. Positive infinity is; a
    /// NaN is not.
    pub fn is_positive(self) -> (positive: bool)
        ensures
            positive == (!self.nan() && self.value() > 0),
    {
        proof {
            lemma_magnitude_zero(self);
        }
        let magnitude: u64 = self.abs_bits();
        self.bits < SIGN_BIT && magnitude != 0 && magnitude <= INFINITY_BITS
    }

    /// Whether this is a number that is zero or greater. Negative zero is; a
    /// NaN is not.
    pub fn is_non_negative(self) -> (non_negative: bool)
        ensures
            non_negative == (!self.nan() && self.value() >= 0),
    {
        proof {
            lemma_magnitude_zero(self);
        }
        let magnitude: u64 = self.abs_bits();
        magnitude == 0 || (self.bits < SIGN_BIT && magnitude <= INFINITY_BITS)
    }

    /// Whether this number is less than the other. False when either is a NaN;
    /// the two zeros are not less than each other.
    pub fn lt(self, other: Binary64) -> (less: bool)
        ensures
            less == (!self.nan() && !other.nan() && self.value() < other.value()),
    {
        let a: u64 = self.abs_bits();
        let b: u64 = other.abs_bits();
        proof {
            lemma_magnitude_order(self, other);
            lemma_magnitude_zero(self);
            lemma_magnitude_zero(other);
        }
        if a > INFINITY_BITS || b > INFINITY_BITS {
            false
        } else if self.bits >= SIGN_BIT {
            if other.bits >= SIGN_BIT {
                b < a
            } else {
                a != 0 || b != 0
            }
        } else {
            if other.bits >= SIGN_BIT {
                false
            } else {
                a < b
            }
        }
    }
}

/// Only the two zero patterns have magnitude zero.
pub proof fn lemma_magnitude_zero(number: Binary64)
    ensures
        number.magnitude() == 0 <==> number.magnitude_bits() == 0,
{
    let p = pow2(number.scale());
    let s = number.significand();
    lemma_pow2_pos(number.scale());
    if number.magnitude_bits() == 0 {
        assert(s == 0);
        assert(s * p == 0) by (nonlinear_arith)
            requires
                s == 0,
        ;
    } else {
        assert(s > 0);
        assert(s * p > 0) by (nonlinear_arith)
            requires
                s > 0,
                p > 0,
        ;
    }
}

/// The magnitude grows strictly with the pattern once the sign bit is set
/// aside: comparing two magnitudes is comparing the patterns as integers.
pub proof fn lemma_magnitude_strictly_increases(low: Binary64, high: Binary64)
    requires
        low.magnitude_bits() < high.magnitude_bits(),
    ensures
        low.magnitude() < high.magnitude(),
{
    let h = HIDDEN_BIT as nat;
    let el = low.exponent_field();
    let eh = high.exponent_field();
    let sl = low.significand();
    let sh = high.significand();
    let pl = pow2(low.scale());
    let ph = pow2(high.scale());
    lemma_pow2_pos(low.scale());
    lemma_pow2_pos(high.scale());
    assert(el <= eh);
    if el == eh {
        assert(sl < sh);
        assert(pl == ph);
        assert(sl * pl < sh * ph) by (nonlinear_arith)
            requires
                sl < sh,
                pl == ph,
                pl > 0,
        ;
    } else {
        assert(eh >= 1);
        assert(sh >= h);
        assert(sh * ph >= h * ph) by (nonlinear_arith)
            requires
                sh >= h,
                ph > 0,
        ;
        if el == 0 {
            assert(pl == 1) by {
                vstd::arithmetic::power2::lemma2_to64();
            }
            assert(sl < h);
            assert(sl * pl == sl) by (nonlinear_arith)
                requires
                    pl == 1,
            ;
            assert(h * ph >= h) by (nonlinear_arith)
                requires
                    ph >= 1,
            ;
        } else {
            // (h + fraction) * 2^(el - 1) < h * 2^el <= h * 2^(eh - 1)
            let pn = pow2(el);
            lemma_pow2_unfold(el);
            assert(pn == 2 * pl);
            if el < eh - 1 {
                lemma_pow2_strictly_increases(el, (eh - 1) as nat);
            }
            assert(pn <= ph);
            assert(sl < 2 * h);
            assert(sl * pl < h * pn) by (nonlinear_arith)
                requires
                    sl < 2 * h,
                    pn == 2 * pl,
                    pl > 0,
            ;
            assert(h * pn <= h * ph) by (nonlinear_arith)
                requires
                    pn <= ph,
            ;
        }
    }
}

/// The order of two magnitudes is the order of their patterns without sign.
pub proof fn lemma_magnitude_order(a: Binary64, b: Binary64)
    ensures
        a.magnitude_bits() < b.magnitude_bits() <==> a.magnitude() < b.magnitude(),
        a.magnitude_bits() == b.magnitude_bits() <==> a.magnitude() == b.magnitude(),
{
    if a.magnitude_bits() < b.magnitude_bits() {
        lemma_magnitude_strictly_increases(a, b);
    } else if b.magnitude_bits() < a.magnitude_bits() {
        lemma_magnitude_strictly_increases(b, a);
    }
}

} // verus!
