//! Account addresses.

use vstd::prelude::*;
use crate::numbers::half_modulus;

verus! {

/// A 160-bit account address: its first four bytes and the sixteen after them,
/// each read most significant byte first.
#[derive(Clone, Copy, Debug, PartialEq, Eq, Structural)]
pub struct Address {
    pub hi: u32,
    pub lo: u128,
}

impl Address {
    /// The address as a number.
    pub open spec fn value(self) -> int {
        (self.hi as int) * half_modulus() + self.lo as int
    }
}

/// The address whose number is `n`, reduced to 160 bits.
#[verifier::opaque]
pub open spec fn address(n: int) -> Address {
    Address {
        hi: ((n / half_modulus()) % 0x1_0000_0000) as u32,
        lo: (n % half_modulus()) as u128,
    }
}

} // verus!
