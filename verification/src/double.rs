//! Double-precision numbers, held by their IEEE 754 bit pattern.
//!
//! The dashboard carries metric values and thresholds that clients send as
//! JSON numbers. The library never computes with them; it only has to keep
//! them exactly and to say on which side of zero one lies. A `Double` is
//! therefore the 64 bits of a binary64 value, and the specification reads
//! sign, exponent and fraction off those bits: a finite value is
//! `± significand × 2^exponent`, with both numbers integers.

use vstd::arithmetic::power2::{
    lemma2_to64_rest, lemma_pow2_pos, lemma_pow2_strictly_increases, pow2,
};
use vstd::prelude::*;

verus! {

/// The bit that carries the sign: set for negative values and for `-0.0`.
pub const SIGN_MASK: u64 = 0x8000_0000_0000_0000;

/// Two to the power 52: the weight of the implicit leading bit of a normal
/// significand, and the number of distinct fractions.
pub const HIDDEN_BIT: u64 = 0x0010_0000_0000_0000;

/// The bit pattern of positive infinity; every larger magnitude is a NaN.
pub const INFINITY_BITS: u64 = 0x7ff0_0000_0000_0000;

/// A binary64 value as its bit pattern.
#[derive(Clone, Copy, Debug)]
pub struct Double {
    /// Sign (1 bit), biased exponent (11 bits), fraction (52 bits).
    pub bits: u64,
}

impl Double {
    /// Whether the sign bit is set.
    pub open spec fn sign_bit(self) -> bool {
        self.bits >= SIGN_MASK
    }

    /// The eleven exponent bits, read as a number in `0..=2047`.
    pub open spec fn biased_exponent(self) -> nat {
        ((self.bits / HIDDEN_BIT) % 2048) as nat
    }

    /// The low 52 bits.
    pub open spec fn fraction(self) -> nat {
        (self.bits % HIDDEN_BIT) as nat
    }

    /// Not a number: all exponent bits set and a fraction other than zero.
    pub open spec fn is_nan(self) -> bool {
        self.biased_exponent() == 2047 && self.fraction() != 0
    }

    /// Positive or negative infinity.
    pub open spec fn is_infinite(self) -> bool {
        self.biased_exponent() == 2047 && self.fraction() == 0
    }

    /// Zero, subnormal or normal.
    pub open spec fn is_finite(self) -> bool {
        self.biased_exponent() < 2047
    }

    /// The integer `m` of a finite value `± m × 2^exponent`. Subnormals
    /// have no implicit leading bit.
    pub open spec fn significand(self) -> nat {
        if self.biased_exponent() == 0 {
            self.fraction()
        } else {
            (HIDDEN_BIT + self.fraction()) as nat
        }
    }

    /// The power of two that scales the significand of a finite value; it
    /// is the weight of the last fraction bit.
    pub open spec fn exponent(self) -> int {
        if self.biased_exponent() == 0 {
            -1074
        } else {
            self.biased_exponent() - 1075
        }
    }

    /// The significand with the sign applied.
    pub open spec fn signed_significand(self) -> int {
        if self.sign_bit() {
            -(self.significand() as int)
        } else {
            self.significand() as int
        }
    }

    /// The value is strictly less than zero. Neither zero, of either
    /// sign, nor a NaN is.
    pub open spec fn is_below_zero(self) -> bool {
        &&& !self.is_nan()
        &&& self.sign_bit()
        &&& (self.is_infinite() || self.significand() > 0)
    }

    /// The value is finite and lies in the closed interval from 0 to 1.
    pub open spec fn in_unit_interval(self) -> bool {
        &&& self.is_finite()
        &&& (self.significand() == 0 || !self.sign_bit())
        &&& if self.exponent() >= 0 {
            self.significand() * pow2(self.exponent() as nat) <= 1
        } else {
            self.significand() <= pow2((-self.exponent()) as nat)
        }
    }

    /// The value is finite and lies within half a unit in its last place
    /// of the fraction `numerator / denominator`.
    pub open spec fn approximates(self, numerator: int, denominator: int) -> bool
        recommends
            denominator > 0,
    {
        let m = self.signed_significand();
        &&& self.is_finite()
        &&& if self.exponent() >= 0 {
            let unit = pow2(self.exponent() as nat) as int;
            -(unit * denominator) <= 2 * (m * unit * denominator - numerator) <= unit
                * denominator
        } else {
            let scale = pow2((-self.exponent()) as nat) as int;
            -denominator <= 2 * (m * denominator - numerator * scale) <= denominator
        }
    }

    /// The value is finite and equals the fraction
    /// `numerator / denominator`.
    pub open spec fn is_exactly(self, numerator: int, denominator: int) -> bool
        recommends
            denominator > 0,
    {
        let m = self.signed_significand();
        &&& self.is_finite()
        &&& if self.exponent() >= 0 {
            m * pow2(self.exponent() as nat) * denominator == numerator
        } else {
            m * denominator == numerator * pow2((-self.exponent()) as nat)
        }
    }

    /// The value with the given bit pattern.
    pub fn from_bits(bits: u64) -> (value: Double)
        ensures
            value.bits == bits,
    {
        Double { bits }
    }

    /// The bit pattern of the value.
    pub fn to_bits(self) -> (bits: u64)
        ensures
            bits == self.bits,
    {
        self.bits
    }

    /// Whether the value compares less than zero.
    pub fn is_negative(self) -> (negative: bool)
        ensures
            negative == self.is_below_zero(),
    {
        if self.bits < SIGN_MASK {
            false
        } else {
            let magnitude: u64 = self.bits - SIGN_MASK;
            magnitude != 0 && magnitude <= INFINITY_BITS
        }
    }
}

/// The bit pattern of the value 1.
pub const ONE_BITS: u64 = 0x3ff0_0000_0000_0000;

/// Which bit patterns lie between 0 and 1: those of the values without
/// sign up to that of 1, among which the order of the patterns is the
/// order of the values, and that of negative zero.
pub proof fn lemma_unit_interval_bits(value: Double)
    ensures
        value.in_unit_interval() <==> (value.bits <= ONE_BITS || value.bits == SIGN_MASK),
{
    let e = value.biased_exponent();
    let m = value.significand();
    lemma2_to64_rest();
    if !value.sign_bit() && value.is_finite() {
        if e <= 1022 {
            let down = (-value.exponent()) as nat;
            if down > 53 {
                lemma_pow2_strictly_increases(53, down);
            }
            assert(m <= pow2(down));
        } else if e >= 1024 && e < 1075 {
            let down = (-value.exponent()) as nat;
            if down < 51 {
                lemma_pow2_strictly_increases(down, 51);
            }
            assert(m > pow2(down));
        } else if e >= 1075 {
            let up = value.exponent() as nat;
            lemma_pow2_pos(up);
            assert(m * pow2(up) > 1) by (nonlinear_arith)
                requires
                    m >= 2,
                    pow2(up) >= 1,
            ;
        }
    }
}

} // verus!
