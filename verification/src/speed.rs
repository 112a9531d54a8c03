//! Transfer speeds.

use vstd::arithmetic::power2::{lemma2_to64, lemma_pow2_pos, lemma_pow2_strictly_increases, pow2};
use vstd::bits::{lemma_u64_shl_is_mul, lemma_u64_shr_is_div};
use vstd::prelude::*;

verus! {

/// A transfer speed in bytes per second: a double-precision number, kept as its bit pattern.
///
/// The library carries speeds, compares them with zero and cuts off their fractions; it never
/// computes one.
#[derive(Clone, Copy, Debug, PartialEq, Eq, Structural)]
pub struct Speed {
    pub bits: u64,
}

impl Speed {
    /// The speed whose bit pattern is `bits`.
    pub fn from_bits(bits: u64) -> (speed: Speed)
        ensures
            speed.bits == bits,
    {
        Speed { bits }
    }

    /// The number zero, with either sign.
    pub open spec fn is_zero_number(self) -> bool {
        self.bits == 0 || self.bits == 0x8000_0000_0000_0000
    }

    /// The exponent field of the number.
    pub open spec fn exponent(self) -> int {
        (self.bits as int / 0x10_0000_0000_0000) % 2048
    }

    /// The fraction field of the number.
    pub open spec fn fraction(self) -> int {
        self.bits as int % 0x10_0000_0000_0000
    }

    /// Whether the sign of the number is set.
    pub open spec fn is_signed(self) -> bool {
        self.bits >= 0x8000_0000_0000_0000
    }

    /// Whether this is no number at all.
    pub open spec fn is_nan(self) -> bool {
        self.exponent() == 2047 && self.fraction() != 0
    }

    /// Whether this is a finite number, and not less than zero: what a number of bytes over a time
    /// comes to.
    pub open spec fn is_a_rate(self) -> bool {
        self.exponent() < 2047 && (!self.is_signed() || self.is_zero_number())
    }

    /// Whether this is a number, and zero or less.
    pub open spec fn at_most_zero(self) -> bool {
        !self.is_nan() && (self.is_signed() || self.bits == 0)
    }

    /// The number without its fraction, as far as 64 bits can hold it. What is less than zero or
    /// no number at all counts as zero.
    pub open spec fn whole(self) -> u64 {
        let significand = 0x10_0000_0000_0000 + self.fraction();
        let e = self.exponent();
        if self.is_nan() || self.is_signed() || e < 1023 {
            0
        } else if e >= 1087 {
            u64::MAX
        } else if e <= 1075 {
            (significand / pow2((1075 - e) as nat) as int) as u64
        } else {
            (significand * pow2((e - 1075) as nat)) as u64
        }
    }

    /// Positive zero.
    pub fn zero() -> (speed: Speed)
        ensures
            speed == (Speed { bits: 0 }),
    {
        Speed { bits: 0 }
    }

    /// Whether this is a number, and zero or less.
    pub fn is_at_most_zero(self) -> (b: bool)
        ensures
            b == self.at_most_zero(),
    {
        let e: u64 = (self.bits / 0x10_0000_0000_0000) % 2048;
        let f: u64 = self.bits % 0x10_0000_0000_0000;
        !(e == 2047 && f != 0) && (self.bits >= 0x8000_0000_0000_0000 || self.bits == 0)
    }

    /// Whether this is a finite number, and not less than zero.
    pub fn is_rate(self) -> (b: bool)
        ensures
            b == self.is_a_rate(),
    {
        let e: u64 = (self.bits / 0x10_0000_0000_0000) % 2048;
        e < 2047 && (self.bits < 0x8000_0000_0000_0000 || self.is_zero())
    }

    /// The number without its fraction, as far as 64 bits can hold it.
    pub fn truncate(self) -> (n: u64)
        ensures
            n == self.whole(),
    {
        let e: u64 = (self.bits / 0x10_0000_0000_0000) % 2048;
        let f: u64 = self.bits % 0x10_0000_0000_0000;
        let significand: u64 = 0x10_0000_0000_0000 + f;
        if (e == 2047 && f != 0) || self.bits >= 0x8000_0000_0000_0000 || e < 1023 {
            0
        } else if e >= 1087 {
            u64::MAX
        } else if e <= 1075 {
            let shift: u64 = 1075 - e;
            proof {
                lemma_u64_shr_is_div(significand, shift);
                lemma_pow2_pos(shift as nat);
                assert(significand as nat / pow2(shift as nat) <= significand)
                    by (nonlinear_arith)
                    requires
                        pow2(shift as nat) > 0,
                ;
            }
            significand >> shift
        } else {
            let shift: u64 = e - 1075;
            proof {
                lemma2_to64();
                if shift < 11 {
                    lemma_pow2_strictly_increases(shift as nat, 11);
                }
                assert(significand * pow2(shift as nat) <= 0x1f_ffff_ffff_ffff * 2048)
                    by (nonlinear_arith)
                    requires
                        significand <= 0x1f_ffff_ffff_ffff,
                        pow2(shift as nat) <= 2048,
                ;
                lemma_u64_shl_is_mul(significand, shift);
            }
            significand << shift
        }
    }

    /// Whether this is the number zero, with either sign.
    pub fn is_zero(self) -> (b: bool)
        ensures
            b == self.is_zero_number(),
    {
        self.bits == 0 || self.bits == 0x8000_0000_0000_0000
    }
}

} // verus!
