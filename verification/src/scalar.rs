//! Single-precision scalar values carried as raw IEEE-754 bit patterns.
//!
//! The native graphics engine measures stroke widths, miter limits and
//! transform coefficients in `f32`. This crate keeps those quantities as
//! their 32-bit encodings, so that the exact classifications the wrapper
//! logic depends on (zero, negative, finite) are plain bit tests with
//! provable meaning.

use vstd::prelude::*;

verus! {

/// Bits of +1.0f32.
pub const SCALAR_ONE_BITS: u32 = 0x3F80_0000;

/// Bits of -1.0f32.
pub const SCALAR_NEG_ONE_BITS: u32 = 0xBF80_0000;

/// Bits of +4.0f32, the default miter limit of the native engine.
pub const SCALAR_FOUR_BITS: u32 = 0x4080_0000;

/// A single-precision value, stored as its IEEE-754 bit pattern.
#[derive(Clone, Copy, PartialEq, Eq, Structural, Debug)]
pub struct Scalar {
    pub bits: u32,
}

/// The encoding is +0.0 or -0.0.
pub open spec fn scalar_is_zero(bits: u32) -> bool {
    bits & 0x7FFF_FFFF == 0
}

/// The encoding is a NaN: exponent all ones, mantissa non-zero.
pub open spec fn scalar_is_nan(bits: u32) -> bool {
    bits & 0x7FFF_FFFF > 0x7F80_0000
}

/// The encoding is neither an infinity nor a NaN.
pub open spec fn scalar_is_finite(bits: u32) -> bool {
    bits & 0x7F80_0000 != 0x7F80_0000
}

/// The encoded value compares strictly below zero
/// (sign bit set, not a zero, not a NaN).
pub open spec fn scalar_lt_zero(bits: u32) -> bool {
    bits > 0x8000_0000 && !scalar_is_nan(bits)
}

/// The encoded value compares strictly above zero.
pub open spec fn scalar_gt_zero(bits: u32) -> bool {
    0 < bits <= 0x7F80_0000
}

impl Scalar {
    /// Wraps a raw IEEE-754 single-precision bit pattern.
    pub fn from_bits(bits: u32) -> (r: Scalar)
        ensures
            r.bits == bits,
    {
        Scalar { bits }
    }

    /// The value 0.0.
    pub fn zero() -> (r: Scalar)
        ensures
            r.bits == 0,
            scalar_is_zero(r.bits),
    {
        proof {
            assert(scalar_is_zero(0u32)) by (bit_vector);
        }
        Scalar { bits: 0 }
    }

    /// The value 1.0.
    pub fn one() -> (r: Scalar)
        ensures
            r.bits == SCALAR_ONE_BITS,
    {
        Scalar { bits: SCALAR_ONE_BITS }
    }

    /// The value -1.0.
    pub fn neg_one() -> (r: Scalar)
        ensures
            r.bits == SCALAR_NEG_ONE_BITS,
    {
        Scalar { bits: SCALAR_NEG_ONE_BITS }
    }

    /// True exactly for the two encodings of zero.
    pub fn is_zero(&self) -> (r: bool)
        ensures
            r == scalar_is_zero(self.bits),
    {
        self.bits & 0x7FFF_FFFF == 0
    }

    /// True exactly for NaN encodings.
    pub fn is_nan(&self) -> (r: bool)
        ensures
            r == scalar_is_nan(self.bits),
    {
        self.bits & 0x7FFF_FFFF > 0x7F80_0000
    }

    /// True when the encoding is neither an infinity nor a NaN.
    pub fn is_finite(&self) -> (r: bool)
        ensures
            r == scalar_is_finite(self.bits),
    {
        self.bits & 0x7F80_0000 != 0x7F80_0000
    }

    /// True when the encoded value is strictly negative.
    pub fn lt_zero(&self) -> (r: bool)
        ensures
            r == scalar_lt_zero(self.bits),
    {
        self.bits > 0x8000_0000 && !(self.bits & 0x7FFF_FFFF > 0x7F80_0000)
    }

    /// True when the encoded value is strictly positive.
    pub fn gt_zero(&self) -> (r: bool)
        ensures
            r == scalar_gt_zero(self.bits),
    {
        0 < self.bits && self.bits <= 0x7F80_0000
    }
}

} // verus!
