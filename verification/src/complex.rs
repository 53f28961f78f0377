//! Complex numbers as they travel inside descriptors.

use vstd::prelude::*;

verus! {

/// A complex number, each part held as the bit pattern of an IEEE-754
/// binary64 value.
#[derive(Debug, Clone, Copy, PartialEq, Eq, Structural)]
pub struct Complex {
    /// Bits of the real part.
    pub re: u64,
    /// Bits of the imaginary part.
    pub im: u64,
}

impl Complex {
    /// Builds a complex number from the bit patterns of its two parts.
    pub fn new(re: u64, im: u64) -> (c: Complex)
        ensures
            c.re == re,
            c.im == im,
    {
        Complex { re, im }
    }
}

} // verus!
