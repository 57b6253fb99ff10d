//! Floating-point numbers as they travel: the bits of their IEEE 754 form.
//!
//! Nothing in this library computes with such a number; it carries the bits
//! from the bytes to the caller and back, so two numbers are the same exactly
//! when their bits are.

use vstd::prelude::*;

verus! {

/// A 32-bit floating-point number, held as its bits.
#[derive(Debug, Clone, Copy, PartialEq, Eq, Hash, Structural)]
pub struct F32 {
    pub bits: u32,
}

impl F32 {
    /// The number with the given bits.
    pub fn from_bits(bits: u32) -> (f: F32)
        ensures
            f.bits == bits,
    {
        F32 { bits }
    }

    /// The bits of the number.
    pub fn to_bits(self) -> (bits: u32)
        ensures
            bits == self.bits,
    {
        self.bits
    }
}

impl DeepView for F32 {
    type V = F32;

    open spec fn deep_view(&self) -> F32 {
        *self
    }
}

/// A 64-bit floating-point number, held as its bits.
#[derive(Debug, Clone, Copy, PartialEq, Eq, Hash, Structural)]
pub struct F64 {
    pub bits: u64,
}

impl F64 {
    /// The number with the given bits.
    pub fn from_bits(bits: u64) -> (f: F64)
        ensures
            f.bits == bits,
    {
        F64 { bits }
    }

    /// The bits of the number.
    pub fn to_bits(self) -> (bits: u64)
        ensures
            bits == self.bits,
    {
        self.bits
    }
}

impl DeepView for F64 {
    type V = F64;

    open spec fn deep_view(&self) -> F64 {
        *self
    }
}

} // verus!
