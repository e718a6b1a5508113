//! Real numbers as the library carries them.
use vstd::prelude::*;

verus! {

/// The bits of positive zero.
pub const ZERO_BITS: u64 = 0;

/// The bits of positive infinity.
pub const INFINITY_BITS: u64 = 0x7FF0_0000_0000_0000;

/// A real number, held as the 64 bits of its IEEE 754 binary64 encoding.
///
/// The library stores quantities, copies them and hands them on. It never adds,
/// multiplies or compares them: two quantities are the same when their bits are.
#[derive(Clone, Copy, Debug, PartialEq, Eq)]
pub struct Quantity {
    pub bits: u64,
}

impl Quantity {
    /// The quantity with the encoding `bits`.
    pub fn from_bits(bits: u64) -> (q: Quantity)
        ensures
            q.bits == bits,
    {
        Quantity { bits }
    }

    /// The encoding of the quantity.
    pub fn to_bits(&self) -> (bits: u64)
        ensures
            bits == self.bits,
    {
        self.bits
    }

    /// Positive zero: what a flow is before anything has flowed.
    pub fn zero() -> (q: Quantity)
        ensures
            q == Self::spec_zero(),
    {
        Quantity { bits: ZERO_BITS }
    }

    /// Positive infinity: the upper bound of a flow that nothing limits.
    pub fn infinity() -> (q: Quantity)
        ensures
            q == Self::spec_infinity(),
    {
        Quantity { bits: INFINITY_BITS }
    }

    pub open spec fn spec_zero() -> Quantity {
        Quantity { bits: ZERO_BITS }
    }

    pub open spec fn spec_infinity() -> Quantity {
        Quantity { bits: INFINITY_BITS }
    }
}

} // verus!
