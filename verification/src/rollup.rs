//! What every rollup has: signed transactions, accounts, and batches of
//! withdrawals for the chain below.

use vstd::prelude::*;
use crate::address::Address;
use crate::crypto::Signature;
use crate::numbers::U256;
use crate::table::Table;

verus! {

/// A transaction and who claims to have signed it.
#[derive(Clone, Debug)]
pub struct SignedTransaction<T> {
    pub pub_key: Address,
    pub sig: Signature,
    pub tx: Transaction<T>,
}

/// A transaction. The nonce counts the transactions of its sender.
#[derive(Clone, Debug)]
pub struct Transaction<T> {
    pub nonce: U256,
    pub data: TransactionData<T>,
}

/// What a transaction asks for. `T` is what a particular rollup adds.
#[derive(Clone, Debug)]
pub enum TransactionData<T> {
    /// A deposit that was made in a block of the chain below.
    BridgeTokens { amount: U256, block: U256 },
    WithdrawTokens(U256),
    Transfer { from: Address, to: Address, amount: U256 },
    Extension(T),
}

/// A transaction as it was received, with the message that was signed.
#[derive(Debug)]
pub struct Posted<T> {
    pub stx: SignedTransaction<T>,
    pub message: Vec<u8>,
}

/// A batch of withdrawals, with the root that stands for it on the chain below
/// and whether the chain has confirmed it.
#[derive(Debug)]
pub struct WithdrawTree {
    pub withdrawals: Vec<(Address, U256)>,
    pub root: [u8; 32],
    pub verified: bool,
}

/// The state of a rollup. `S` is what a particular rollup adds.
pub struct BaseRollupState<S, T> {
    /// The signed transactions that were carried out, from the start on.
    pub sequenced: Vec<SignedTransaction<T>>,
    pub balances: Table<Address, U256>,
    pub nonces: Table<Address, U256>,
    pub withdrawals: Vec<(Address, U256)>,
    pub batches: Vec<WithdrawTree>,
    /// The last block of the chain below that was taken into account.
    pub l1_block: U256,
    pub state: S,
}

/// The contents of a [`WithdrawTree`].
pub struct WithdrawTreeView {
    pub withdrawals: Seq<(Address, U256)>,
    pub root: Seq<u8>,
    pub verified: bool,
}

impl View for WithdrawTree {
    type V = WithdrawTreeView;

    open spec fn view(&self) -> WithdrawTreeView {
        WithdrawTreeView {
            withdrawals: self.withdrawals@,
            root: self.root@,
            verified: self.verified,
        }
    }
}

/// The contents of a list of batches.
pub open spec fn batches_view(batches: Seq<WithdrawTree>) -> Seq<WithdrawTreeView> {
    batches.map_values(|b: WithdrawTree| b@)
}

} // verus!
