//! The data of the bridge's events, decoded by `alloy_sol_types`.

use alloy_sol_types::sol_data;
use alloy_sol_types::SolType;
use vstd::prelude::*;
use crate::address::{address, Address};
use crate::numbers::{be_value, u256, U256};

verus! {

/// Whether `data` is the encoding of an address and an unsigned integer: two
/// words, the first of which holds the address in its last twenty bytes and
/// nothing before them.
pub open spec fn is_deposit_data(data: Seq<u8>) -> bool {
    data.len() == 64 && forall|i: int| 0 <= i < 12 ==> #[trigger] data[i] == 0
}

/// The sender and the amount that the data of a deposit hold.
pub open spec fn deposit_data(data: Seq<u8>) -> Option<(Address, U256)> {
    if is_deposit_data(data) {
        Some((address(be_value(data.subrange(12, 32))), u256(be_value(data.subrange(32, 64)))))
    } else {
        None
    }
}

/// The index and the root that the data of a posted batch hold: two words, of
/// which the second is the root itself.
pub open spec fn batch_data(data: Seq<u8>) -> Option<(U256, Seq<u8>)> {
    if data.len() == 64 {
        Some((u256(be_value(data.subrange(0, 32))), data.subrange(32, 64)))
    } else {
        None
    }
}

/// Calls `SolType::abi_decode_sequence` of `alloy_sol_types`, with validation,
/// for the data of the event `Deposit(address,uint256)`. The contract claims
/// that exactly the two-word encodings decode, and to what.
#[verifier::external_body]
pub(crate) fn decode_deposit(data: &[u8]) -> (r: Option<(Address, U256)>)
    ensures
        r == deposit_data(data@),
{
    let (sender, amount) =
        <(sol_data::Address, sol_data::Uint<256>)>::abi_decode_sequence(data, true).ok()?;
    let (hi, lo) = sender.split_at(4);
    Some((
        Address {
            hi: u32::from_be_bytes(hi.try_into().ok()?),
            lo: u128::from_be_bytes(lo.try_into().ok()?),
        },
        U256 { hi: amount.wrapping_shr(128).to(), lo: amount.wrapping_to() },
    ))
}

/// Calls `SolType::abi_decode_sequence` of `alloy_sol_types`, with validation,
/// for the data of the event `BatchPosted(uint256,bytes32)`. The contract claims
/// that exactly the two-word encodings decode, and to what.
#[verifier::external_body]
pub(crate) fn decode_batch_posted(data: &[u8]) -> (r: Option<(U256, [u8; 32])>)
    ensures
        match r {
            Some((index, root)) => batch_data(data@) == Some((index, root@)),
            None => batch_data(data@) is None,
        },
{
    let (index, root) =
        <(sol_data::Uint<256>, sol_data::FixedBytes<32>)>::abi_decode_sequence(data, true).ok()?;
    Some((
        U256 { hi: index.wrapping_shr(128).to(), lo: index.wrapping_to() },
        root.0,
    ))
}

} // verus!
