//! Floating-point values as the library holds them.

use vstd::prelude::*;

verus! {

/// A 32-bit IEEE-754 number, held by its bit pattern. The library carries
/// such values from one place to another and never computes with them.
/// Two values are equal here when their bit patterns are.
#[derive(Clone, Copy, Debug, PartialEq, Eq, Structural)]
pub struct Float32 {
    pub bits: u32,
}

impl Float32 {
    /// Whether a bit pattern stands for zero: every bit but the sign is clear.
    pub open spec fn bits_are_zero(bits: u32) -> bool {
        bits & 0x7FFF_FFFF == 0
    }

    /// Positive zero.
    pub fn zero() -> (z: Float32)
        ensures
            z.bits == 0,
    {
        Float32 { bits: 0 }
    }

    /// The value with the given bit pattern.
    pub fn from_bits(bits: u32) -> (v: Float32)
        ensures
            v.bits == bits,
    {
        Float32 { bits }
    }

    /// The bit pattern of the value.
    pub fn to_bits(&self) -> (bits: u32)
        ensures
            bits == self.bits,
    {
        self.bits
    }

    /// Whether the value is zero, of either sign.
    pub fn is_zero(&self) -> (z: bool)
        ensures
            z == Float32::bits_are_zero(self.bits),
    {
        self.bits & 0x7FFF_FFFF == 0
    }
}

impl Default for Float32 {
    fn default() -> (z: Float32)
        ensures
            z.bits == 0,
    {
        Float32 { bits: 0 }
    }
}

} // verus!
