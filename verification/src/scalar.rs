//! Exact binary fractions, the numbers in which a model's coordinates are held.

use vstd::prelude::*;
use vstd::arithmetic::power2::{lemma2_to64, lemma_pow2_adds, pow2};

verus! {

/// Number of document units in one block of the world.
pub const UNITS_PER_BLOCK: u32 = 16;

/// The exact number `(-1)^negative * mantissa * 2^exponent`.
#[derive(Clone, Copy, Debug, PartialEq, Eq)]
pub struct Scalar {
    pub negative: bool,
    pub mantissa: u32,
    pub exponent: i32,
}

/// What the bits of an IEEE 754 single precision number stand for:
/// nothing for an infinity or a NaN, else the sign, the significand and the
/// power of two that scales it.
pub open spec fn single_value(bits: u32) -> Option<Scalar> {
    let field: int = (bits as int / 0x80_0000) % 0x100;
    let fraction: int = bits as int % 0x80_0000;
    let negative: bool = bits >= 0x8000_0000u32;
    if field == 0xff {
        None
    } else if field == 0 {
        Some(Scalar { negative, mantissa: fraction as u32, exponent: -149i32 })
    } else {
        Some(Scalar { negative, mantissa: (fraction + 0x80_0000) as u32, exponent: (field - 150) as i32 })
    }
}

impl Scalar {
    /// Whether the number is one that single precision holds exactly.
    pub open spec fn is_single(self) -> bool {
        &&& self.mantissa < 0x100_0000
        &&& -149 <= self.exponent <= 104
    }

    /// Tests `is_single`.
    pub fn check_single(&self) -> (r: bool)
        ensures
            r == self.is_single(),
    {
        self.mantissa < 0x100_0000 && -149 <= self.exponent && self.exponent <= 104
    }

    /// The number zero.
    pub open spec fn spec_zero() -> Scalar {
        Scalar { negative: false, mantissa: 0, exponent: 0 }
    }

    /// The number times `2^shift`, where that is a whole number.
    pub open spec fn times_pow2(self, shift: int) -> int
        recommends
            self.exponent + shift >= 0,
    {
        let size: int = self.mantissa * pow2((self.exponent + shift) as nat);
        if self.negative {
            -size
        } else {
            size
        }
    }

    /// The number zero.
    pub fn zero() -> (r: Scalar)
        ensures
            r == Scalar::spec_zero(),
            r.is_single(),
    {
        Scalar { negative: false, mantissa: 0, exponent: 0 }
    }

    /// Reads the bits of a single precision number.
    pub fn from_bits(bits: u32) -> (r: Option<Scalar>)
        ensures
            r == single_value(bits),
            r matches Some(s) ==> s.is_single(),
    {
        let field: u32 = (bits / 0x80_0000) % 0x100;
        let fraction: u32 = bits % 0x80_0000;
        let negative = bits >= 0x8000_0000;
        if field == 0xff {
            None
        } else if field == 0 {
            Some(Scalar { negative, mantissa: fraction, exponent: -149 })
        } else {
            let exponent: i32 = field as i32 - 150;
            Some(Scalar { negative, mantissa: fraction + 0x80_0000, exponent })
        }
    }

    /// The number in blocks, for one given in document units.
    pub open spec fn spec_to_blocks(self) -> Scalar {
        Scalar { negative: self.negative, mantissa: self.mantissa, exponent: (self.exponent - 4) as i32 }
    }

    /// Divides by the number of document units in a block.
    pub fn to_blocks(self) -> (r: Scalar)
        requires
            self.is_single(),
        ensures
            r == self.spec_to_blocks(),
    {
        Scalar { negative: self.negative, mantissa: self.mantissa, exponent: self.exponent - 4 }
    }
}

/// A number in blocks is the sixteenth of the number in document units:
/// scaled up until both are whole, sixteen times the one is the other.
pub proof fn lemma_to_blocks_divides(units: Scalar, shift: int)
    requires
        units.is_single(),
        units.exponent - 4 + shift >= 0,
    ensures
        units.spec_to_blocks().times_pow2(shift) * UNITS_PER_BLOCK == units.times_pow2(shift),
{
    let low: nat = (units.exponent - 4 + shift) as nat;
    lemma_pow2_adds(low, 4);
    lemma2_to64();
    assert(units.mantissa * (pow2(low) * 16) == (units.mantissa * pow2(low)) * 16)
        by (nonlinear_arith);
}

} // verus!
