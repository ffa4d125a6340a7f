//! Signatures and hashes, taken from `alloy_primitives`.

use alloy_primitives::{Parity as AlloyParity, Signature as AlloySignature, U256 as AlloyU256};
use vstd::prelude::*;
use crate::address::Address;
use crate::numbers::U256;

verus! {

/// The parity of a signature: the value that tells apart the two keys that
/// could have made it.
#[derive(Clone, Copy, Debug, PartialEq, Eq, Structural)]
pub enum Parity {
    /// An explicit value, which may carry a chain id.
    Eip155(u64),
    /// The plain form, written as 27 or 28.
    NonEip155(bool),
    /// A flag: true for odd.
    Parity(bool),
}

/// An ECDSA signature over secp256k1.
#[derive(Clone, Copy, Debug, PartialEq, Eq, Structural)]
pub struct Signature {
    pub r: U256,
    pub s: U256,
    pub v: Parity,
}

/// The address that `alloy_primitives::Signature::recover_address_from_msg`
/// recovers from a signature and a message, or `None` where the two scalars are
/// no signature or no key can be recovered.
pub uninterp spec fn recovered_address(sig: Signature, msg: Seq<u8>) -> Option<Address>;

/// Calls `alloy_primitives::Signature::recover_address_from_msg` on the
/// signature built from the given parts. The contract claims that the outcome
/// depends on the signature and the message alone.
#[verifier::external_body]
pub(crate) fn recover_address_from_msg(sig: &Signature, msg: &[u8]) -> (r: Option<Address>)
    ensures
        r == recovered_address(*sig, msg@),
{
    let r = (AlloyU256::from(sig.r.hi) << 128) | AlloyU256::from(sig.r.lo);
    let s = (AlloyU256::from(sig.s.hi) << 128) | AlloyU256::from(sig.s.lo);
    let v = match sig.v {
        Parity::Eip155(v) => AlloyParity::Eip155(v),
        Parity::NonEip155(b) => AlloyParity::NonEip155(b),
        Parity::Parity(b) => AlloyParity::Parity(b),
    };
    let sig = AlloySignature::from_rs_and_parity(r, s, v).ok()?;
    let address = sig.recover_address_from_msg(msg).ok()?;
    let (hi, lo) = address.split_at(4);
    Some(Address {
        hi: u32::from_be_bytes(hi.try_into().ok()?),
        lo: u128::from_be_bytes(lo.try_into().ok()?),
    })
}

/// The Keccak-256 digest that `alloy_primitives::keccak256` computes.
pub uninterp spec fn keccak(bytes: Seq<u8>) -> Seq<u8>;

/// Calls `alloy_primitives::keccak256`. The contract claims that the digest
/// depends on the bytes alone.
#[verifier::external_body]
pub(crate) fn keccak256(bytes: &[u8]) -> (r: [u8; 32])
    ensures
        r@ == keccak(bytes@),
{
    alloy_primitives::keccak256(bytes).0
}

/// Calls `alloy_primitives::Signature::test_signature`. The contract gives the
/// fixed signature that it returns.
#[verifier::external_body]
pub(crate) fn test_signature() -> (sig: Signature)
    ensures
        sig.r == (U256 {
            hi: 0x840c_fc57_2845_f578_6e70_2984_c2a5_8252,
            lo: 0x8cad_4b49_b2a1_0b9d_b1be_7fca_9005_8565,
        }),
        sig.s == (U256 {
            hi: 0x25e7_109c_eb98_168d_95b0_9b18_bbf6_b685,
            lo: 0x130e_0562_f233_877d_492b_94ee_e0c5_b6d1,
        }),
        sig.v == Parity::Parity(false),
{
    let sig = AlloySignature::test_signature();
    Signature {
        r: U256 { hi: sig.r().wrapping_shr(128).to(), lo: sig.r().wrapping_to() },
        s: U256 { hi: sig.s().wrapping_shr(128).to(), lo: sig.s().wrapping_to() },
        v: match sig.v() {
            AlloyParity::Eip155(v) => Parity::Eip155(v),
            AlloyParity::NonEip155(b) => Parity::NonEip155(b),
            AlloyParity::Parity(b) => Parity::Parity(b),
        },
    }
}

} // verus!
