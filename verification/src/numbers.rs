//! 256-bit unsigned integers that wrap around on overflow.

use vstd::prelude::*;

verus! {

/// Two to the power of 128: the weight of the high half of a [`U256`].
pub open spec fn half_modulus() -> int {
    0x1_0000_0000_0000_0000_0000_0000_0000_0000int
}

/// Two to the power of 256: the number of values of a [`U256`].
pub open spec fn modulus() -> int {
    0x1_0000_0000_0000_0000_0000_0000_0000_0000_0000_0000_0000_0000_0000_0000_0000_0000int
}

/// The number that `bytes` denote when read most significant byte first.
pub open spec fn be_value(bytes: Seq<u8>) -> int
    decreases bytes.len(),
{
    if bytes.len() == 0 {
        0
    } else {
        be_value(bytes.drop_last()) * 256 + bytes.last() as int
    }
}

/// An unsigned integer of 256 bits, held as its two halves.
#[derive(Clone, Copy, Debug, PartialEq, Eq, Structural)]
pub struct U256 {
    pub hi: u128,
    pub lo: u128,
}

/// The integer whose value is `n` reduced to 256 bits.
#[verifier::opaque]
pub open spec fn u256(n: int) -> U256 {
    let m = n % modulus();
    U256 { hi: (m / half_modulus()) as u128, lo: (m % half_modulus()) as u128 }
}

/// `u256` holds the number it is given, reduced to 256 bits.
pub broadcast proof fn lemma_u256_value(n: int)
    ensures
        (#[trigger] u256(n)).value() == n % modulus(),
{
    reveal(u256);
}

/// An integer is determined by its value.
pub proof fn lemma_value_injective(a: U256, b: U256)
    requires
        a.value() == b.value(),
    ensures
        a == b,
{
}

impl U256 {
    /// The number that this integer stands for.
    pub open spec fn value(self) -> int {
        (self.hi as int) * half_modulus() + self.lo as int
    }

    /// The integer 0.
    pub fn zero() -> (r: U256)
        ensures
            r == u256(0),
            r.value() == 0,
    {
        proof {
            reveal(u256);
        }
        U256 { hi: 0, lo: 0 }
    }

    /// The integer 1.
    pub fn one() -> (r: U256)
        ensures
            r == u256(1),
            r.value() == 1,
    {
        proof {
            reveal(u256);
        }
        U256 { hi: 0, lo: 1 }
    }

    /// The integer with the value of `n`.
    pub fn from_u64(n: u64) -> (r: U256)
        ensures
            r == u256(n as int),
            r.value() == n,
    {
        proof {
            reveal(u256);
        }
        U256 { hi: 0, lo: n as u128 }
    }

    /// The integer with the value of `n`.
    pub fn from_usize(n: usize) -> (r: U256)
        ensures
            r == u256(n as int),
            r.value() == n,
    {
        proof {
            reveal(u256);
        }
        U256 { hi: 0, lo: n as u128 }
    }

    /// The value as a `u64`, or `None` where it does not fit.
    pub fn to_u64(self) -> (r: Option<u64>)
        ensures
            r == (if self.value() <= u64::MAX {
                Some(self.value() as u64)
            } else {
                None
            }),
    {
        if self.hi == 0 && self.lo <= u64::MAX as u128 {
            Some(self.lo as u64)
        } else {
            None
        }
    }

    /// The value as a `usize`, or `None` where it does not fit.
    pub fn to_usize(self) -> (r: Option<usize>)
        ensures
            r == (if self.value() <= usize::MAX {
                Some(self.value() as usize)
            } else {
                None
            }),
    {
        if self.hi == 0 && self.lo <= usize::MAX as u128 {
            Some(self.lo as usize)
        } else {
            None
        }
    }

    /// Whether this integer is the smaller one.
    pub fn less_than(self, other: U256) -> (r: bool)
        ensures
            r == (self.value() < other.value()),
    {
        self.hi < other.hi || (self.hi == other.hi && self.lo < other.lo)
    }

    /// The sum, modulo 2 to the 256.
    pub fn wrapping_add(self, other: U256) -> (r: U256)
        ensures
            r == u256(self.value() + other.value()),
    {
        let lo: u128 = self.lo.wrapping_add(other.lo);
        let carry: u128 = if lo < self.lo { 1 } else { 0 };
        let r = U256 { hi: self.hi.wrapping_add(other.hi).wrapping_add(carry), lo };
        proof {
            lemma_u256_value(self.value() + other.value());
            lemma_value_injective(r, u256(self.value() + other.value()));
        }
        r
    }

    /// The difference, modulo 2 to the 256.
    pub fn wrapping_sub(self, other: U256) -> (r: U256)
        ensures
            r == u256(self.value() - other.value()),
    {
        let lo: u128 = self.lo.wrapping_sub(other.lo);
        let borrow: u128 = if self.lo < other.lo { 1 } else { 0 };
        let r = U256 { hi: self.hi.wrapping_sub(other.hi).wrapping_sub(borrow), lo };
        proof {
            lemma_u256_value(self.value() - other.value());
            lemma_value_injective(r, u256(self.value() - other.value()));
        }
        r
    }

    /// Twice the value, modulo 2 to the 256.
    pub fn wrapping_double(self) -> (r: U256)
        ensures
            r == u256(2 * self.value()),
    {
        self.wrapping_add(self)
    }

    /// Half the value, rounded down.
    pub fn half(self) -> (r: U256)
        ensures
            r == u256(self.value() / 2),
            r.value() == self.value() / 2,
    {
        let carried: u128 = if self.hi % 2 == 1 {
            0x8000_0000_0000_0000_0000_0000_0000_0000
        } else {
            0
        };
        let r = U256 { hi: self.hi / 2, lo: self.lo / 2 + carried };
        proof {
            lemma_u256_value(self.value() / 2);
            lemma_value_injective(r, u256(self.value() / 2));
        }
        r
    }
}

} // verus!
