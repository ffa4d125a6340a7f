//! A verified rollup: ledgers of signed transactions, the bridge that feeds
//! them from a chain, and the sequencer that runs them.
//!
//! Each function has a contract that its body is verified against. Calls into
//! other crates (signature recovery, Keccak, ABI decoding, the rules of chess)
//! stand in [`crypto`], [`abi`] and [`board`]; their contracts are taken on trust.

pub mod abi;
pub mod address;
pub mod board;
pub mod board_laws;
pub mod bridge;
pub mod bridge_laws;
pub mod bridge_outcomes;
pub mod crypto;
pub mod engine;
pub mod engine_laws;
pub mod engine_outcomes;
pub mod http;
pub mod numbers;
pub mod read;
pub mod rollup;
pub mod sequencer;
pub mod sequencer_laws;
pub mod sequencer_outcomes;
pub mod table;
pub mod text;
pub mod totals;
pub mod tx;
pub mod tx_laws;
pub mod tx_outcomes;

use vstd::prelude::*;

verus! {

} // verus!
