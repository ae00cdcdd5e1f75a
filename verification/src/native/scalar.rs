//! Scalars of the native interface that this side only carries.

use vstd::prelude::*;

verus! {

/// A single-precision number of the native interface, held as the 32 bits
/// of its IEEE 754 encoding.
///
/// The binding never computes on such a number: it hands it to the native
/// layer bit for bit.
#[derive(Clone, Copy, PartialEq, Eq, Hash, Debug, Structural)]
pub struct CFloat {
    /// The encoding, sign bit first.
    pub bits: u32,
}

impl CFloat {
    /// The number with the given encoding.
    pub fn from_bits(bits: u32) -> (number: CFloat)
        ensures
            number.bits == bits,
    {
        CFloat { bits }
    }

    /// The encoding of this number.
    pub fn to_bits(self) -> (bits: u32)
        ensures
            bits == self.bits,
    {
        self.bits
    }
}

} // verus!
