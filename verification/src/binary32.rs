//! Single-precision numbers, held as their bits.
//!
//! The tunable quantities of the simulation are single-precision numbers that the kernel
//! consumes on the device. On the host they are only carried, compared against a few bounds and
//! laid out in memory, so they are kept as the 32 bits of their IEEE 754 encoding: one sign bit,
//! eight bits of biased exponent, twenty-three bits of fraction.

use vstd::arithmetic::div_mod::{lemma_basic_div, lemma_div_is_ordered_by_denominator};
use vstd::arithmetic::power2::{lemma2_to64, lemma_pow2_pos, lemma_pow2_strictly_increases, pow2};
use vstd::bits::{lemma_u64_shl_is_mul, lemma_u64_shr_is_div};
use vstd::prelude::*;

verus! {

/// The bit that holds the sign.
pub const SIGN_BIT: u32 = 0x8000_0000;

/// Number of distinct fractions: two to the power of the fraction's width.
pub const FRACTION_SPAN: u32 = 0x80_0000;

/// The biased exponent of the numbers from one up to, but not including, two.
pub const EXPONENT_BIAS: u32 = 127;

/// The biased exponent that marks infinities and NaNs.
pub const EXPONENT_SPECIAL: u32 = 255;

/// The biased exponent at which the significand is the number itself.
pub const EXPONENT_WHOLE: u32 = 150;

/// A single-precision number, as its bits.
#[derive(Clone, Copy, Debug, PartialEq, Eq, Structural)]
pub struct Binary32 {
    pub bits: u32,
}

impl Binary32 {
    /// The sign bit is set.
    pub open spec fn sign_set(self) -> bool {
        self.bits >= SIGN_BIT
    }

    /// The eight bits of the biased exponent.
    pub open spec fn biased_exponent(self) -> nat {
        ((self.bits as nat) / (FRACTION_SPAN as nat)) % 256
    }

    /// The twenty-three bits of the fraction.
    pub open spec fn fraction(self) -> nat {
        (self.bits as nat) % (FRACTION_SPAN as nat)
    }

    /// Neither an infinity nor a NaN.
    pub open spec fn finite(self) -> bool {
        self.biased_exponent() != EXPONENT_SPECIAL
    }

    /// Positive or negative zero.
    pub open spec fn zero(self) -> bool {
        self.biased_exponent() == 0 && self.fraction() == 0
    }

    /// A finite number below zero.
    pub open spec fn negative(self) -> bool {
        self.finite() && self.sign_set() && !self.zero()
    }

    /// The significand of a finite number, as an integer: the fraction, with the implicit
    /// leading bit unless the number is subnormal.
    pub open spec fn significand(self) -> nat {
        if self.biased_exponent() == 0 {
            self.fraction()
        } else {
            FRACTION_SPAN as nat + self.fraction()
        }
    }

    /// The exponent that scales the significand, biased like the encoded one: subnormal numbers
    /// share the scale of the smallest normal ones.
    pub open spec fn scale(self) -> nat {
        if self.biased_exponent() == 0 {
            1
        } else {
            self.biased_exponent()
        }
    }

    /// The magnitude of a finite number, rounded down to a whole number: the significand times
    /// two to the power of `scale - 150`.
    pub open spec fn magnitude_floor(self) -> nat {
        if self.scale() >= EXPONENT_WHOLE {
            self.significand() * pow2((self.scale() - EXPONENT_WHOLE) as nat)
        } else {
            self.significand() / pow2((EXPONENT_WHOLE - self.scale()) as nat)
        }
    }

    /// The number, rounded toward zero, where that is a whole number from 0 to `u32::MAX`:
    /// for a finite number that is not negative and not too large.
    pub open spec fn whole(self) -> Option<u32> {
        if self.finite() && !self.negative() && self.magnitude_floor() <= u32::MAX {
            Some(self.magnitude_floor() as u32)
        } else {
            None
        }
    }

    /// The number lies between zero and one, both included.
    pub open spec fn unit_fraction(self) -> bool {
        ||| self.zero()
        ||| !self.sign_set() && self.biased_exponent() < EXPONENT_BIAS
        ||| !self.sign_set() && self.biased_exponent() == EXPONENT_BIAS && self.fraction() == 0
    }

    /// The number with the given bits.
    pub fn from_bits(bits: u32) -> (number: Binary32)
        ensures
            number.bits == bits,
    {
        Binary32 { bits }
    }

    /// The bits of the number.
    pub fn to_bits(&self) -> (bits: u32)
        ensures
            bits == self.bits,
    {
        self.bits
    }

    /// The biased exponent, read out of the bits.
    fn exponent_bits(&self) -> (exponent: u32)
        ensures
            exponent == self.biased_exponent(),
            exponent <= EXPONENT_SPECIAL,
    {
        let bits: u32 = self.bits;
        assert((bits >> 23) & 0xff == (bits / 0x80_0000) % 256) by (bit_vector);
        (bits >> 23) & 0xff
    }

    /// The fraction, read out of the bits.
    fn fraction_bits(&self) -> (fraction: u32)
        ensures
            fraction == self.fraction(),
            fraction < FRACTION_SPAN,
    {
        let bits: u32 = self.bits;
        assert(bits & 0x7f_ffff == bits % 0x80_0000) by (bit_vector);
        bits & 0x7f_ffff
    }

    /// Whether the number is neither an infinity nor a NaN.
    pub fn is_finite(&self) -> (finite: bool)
        ensures
            finite == self.finite(),
    {
        self.exponent_bits() != EXPONENT_SPECIAL
    }

    /// Whether the number is finite and below zero.
    pub fn is_negative(&self) -> (negative: bool)
        ensures
            negative == self.negative(),
    {
        let exponent: u32 = self.exponent_bits();
        let fraction: u32 = self.fraction_bits();
        exponent != EXPONENT_SPECIAL && self.bits >= SIGN_BIT && !(exponent == 0 && fraction == 0)
    }

    /// Whether the number lies between zero and one, both included.
    ///
    /// Among the numbers without a sign, a larger number has larger bits, so this compares the
    /// bits with those of one; negative zero is admitted by name.
    pub fn is_unit_fraction(&self) -> (within: bool)
        ensures
            within == self.unit_fraction(),
    {
        let bits: u32 = self.bits;
        assert((bits <= 0x3f80_0000u32 || bits == 0x8000_0000u32) <==> (((bits / 0x80_0000) % 256
            == 0 && bits % 0x80_0000 == 0) || (bits < 0x8000_0000u32 && (bits / 0x80_0000) % 256
            < 127) || (bits < 0x8000_0000u32 && (bits / 0x80_0000) % 256 == 127 && bits
            % 0x80_0000 == 0))) by (bit_vector);
        bits <= 0x3f80_0000 || bits == SIGN_BIT
    }

    /// The number rounded toward zero, as a `u32`.
    ///
    /// `None` for an infinity, a NaN, a negative number and a number of `2^32` or more.
    pub fn whole_part(&self) -> (whole: Option<u32>)
        ensures
            whole == self.whole(),
    {
        let exponent: u32 = self.exponent_bits();
        let fraction: u32 = self.fraction_bits();
        if exponent == EXPONENT_SPECIAL {
            return None;
        }
        if self.bits >= SIGN_BIT && !(exponent == 0 && fraction == 0) {
            return None;
        }
        proof {
            lemma2_to64();
        }
        if exponent < EXPONENT_BIAS {
            proof {
                let down: nat = (EXPONENT_WHOLE - self.scale()) as nat;
                if down > 24 {
                    lemma_pow2_strictly_increases(24, down);
                }
                lemma_basic_div(self.significand() as int, pow2(down) as int);
            }
            return Some(0);
        }
        let significand: u64 = FRACTION_SPAN as u64 + fraction as u64;
        if exponent <= EXPONENT_WHOLE {
            let down: u64 = (EXPONENT_WHOLE - exponent) as u64;
            proof {
                lemma_u64_shr_is_div(significand, down);
                lemma_pow2_pos(down as nat);
                lemma_div_is_ordered_by_denominator(
                    significand as int,
                    1,
                    pow2(down as nat) as int,
                );
            }
            let floor: u64 = significand >> down;
            proof {
                if exponent == EXPONENT_WHOLE {
                    assert(self.significand() * pow2(0) == self.significand()) by (nonlinear_arith)
                        requires
                            pow2(0) == 1,
                    ;
                }
            }
            Some(floor as u32)
        } else if exponent <= EXPONENT_WHOLE + 8 {
            let up: u64 = (exponent - EXPONENT_WHOLE) as u64;
            proof {
                if up < 8 {
                    lemma_pow2_strictly_increases(up as nat, 8);
                }
                assert(significand * pow2(up as nat) <= 0xff_ffff * 0x100) by (nonlinear_arith)
                    requires
                        significand <= 0xff_ffff,
                        pow2(up as nat) <= 0x100,
                ;
                lemma_u64_shl_is_mul(significand, up);
            }
            let floor: u64 = significand << up;
            Some(floor as u32)
        } else {
            proof {
                let up: nat = (exponent - EXPONENT_WHOLE) as nat;
                if up > 9 {
                    lemma_pow2_strictly_increases(9, up);
                }
                assert(significand * pow2(up) >= 0x80_0000 * 0x200) by (nonlinear_arith)
                    requires
                        significand >= 0x80_0000,
                        pow2(up) >= 0x200,
                ;
            }
            None
        }
    }
}

} // verus!
