//! The rollup of a DAO: accounts, and proposals to change how the DAO is run.

use std::collections::hash_map::DefaultHasher;
use std::collections::HashMap;
use std::hash::Hasher;
use vstd::prelude::*;
use vstd::std_specs::hash::DefaultHasherAdditionalSpecFns;
use vstd::string::*;
use vstd::utf8::encode_utf8;
use crate::address::Address;
use crate::crypto;
use crate::http::{
    http_method, method_named, HttpBody, HttpMethod, HttpReply, STATUS_BAD_REQUEST,
    STATUS_METHOD_NOT_ALLOWED, STATUS_OK,
};
use crate::numbers::{u256, U256};
use crate::rollup::{
    batches_view, BaseRollupState, Posted, SignedTransaction, Transaction, TransactionData,
    WithdrawTreeView,
};
use crate::table::Table;
use crate::tx::{balance, balance_of, credit, credit_account, debit, debit_account};

verus! {

pub const DEFAULT_QUEUE_RESPONSE_TIMEOUT_SECONDS: u8 = 5;

pub const DEFAULT_MAX_OUTSTANDING_PAYMENTS: u8 = 3;

pub const DEFAULT_PAYMENT_PERIOD_HOURS: u8 = 24;

/// The state of the DAO.
pub struct DaoState {
    pub root_node: String,
    pub members: HashMap<String, Address>,
    pub proposals: HashMap<u64, ProposalInProgress>,
    pub queue_response_timeout_seconds: u8,
    pub max_outstanding_payments: u8,
    pub payment_period_hours: u8,
}

/// What members can ask for: to propose a change, or to vote on one.
#[derive(Debug)]
pub enum DaoTransaction {
    Propose(Proposal),
    Vote { item: u64, vote: SignedVote },
}

/// The changes that can be proposed.
#[derive(Debug)]
pub enum Proposal {
    ChangeRootNode(String),
    ChangeQueueResponseTimeoutSeconds(u8),
    ChangeMaxOutstandingPayments(u8),
    ChangePaymentPeriodHours(u8),
    Kick(String),
}

/// A proposal and the votes cast on it.
#[derive(Clone, Debug)]
pub struct ProposalInProgress {
    pub proposal: Proposal,
    pub votes: HashMap<String, SignedVote>,
}

/// A vote on a proposal.
#[derive(Clone, Copy, Debug, PartialEq, Eq, Structural)]
pub struct Vote {
    pub proposal_hash: u64,
    pub is_yea: bool,
}

/// A signed vote on a proposal.
#[derive(Clone, Copy, Debug, PartialEq, Eq, Structural)]
pub struct SignedVote {
    pub vote: Vote,
    pub signature: u64,
}

/// The state of the rollup of a DAO.
pub type FullRollupState = BaseRollupState<DaoState, DaoTransaction>;

impl Clone for Proposal {
    fn clone(&self) -> (r: Self)
        ensures
            r == *self,
    {
        match self {
            Proposal::ChangeRootNode(node) => Proposal::ChangeRootNode(node.clone()),
            Proposal::ChangeQueueResponseTimeoutSeconds(timeout) => {
                Proposal::ChangeQueueResponseTimeoutSeconds(*timeout)
            },
            Proposal::ChangeMaxOutstandingPayments(max) => Proposal::ChangeMaxOutstandingPayments(
                *max,
            ),
            Proposal::ChangePaymentPeriodHours(period) => Proposal::ChangePaymentPeriodHours(
                *period,
            ),
            Proposal::Kick(node) => Proposal::Kick(node.clone()),
        }
    }
}

impl Clone for DaoTransaction {
    fn clone(&self) -> (r: Self)
        ensures
            r == *self,
    {
        match self {
            DaoTransaction::Propose(proposal) => DaoTransaction::Propose(proposal.clone()),
            DaoTransaction::Vote { item, vote } => DaoTransaction::Vote {
                item: *item,
                vote: *vote,
            },
        }
    }
}

/// Copies a signed transaction.
pub fn copy_transaction(stx: &SignedTransaction<DaoTransaction>) -> (r: SignedTransaction<
    DaoTransaction,
>)
    ensures
        r == *stx,
{
    let data = match &stx.tx.data {
        TransactionData::BridgeTokens { amount, block } => TransactionData::BridgeTokens {
            amount: *amount,
            block: *block,
        },
        TransactionData::WithdrawTokens(amount) => TransactionData::WithdrawTokens(*amount),
        TransactionData::Transfer { from, to, amount } => TransactionData::Transfer {
            from: *from,
            to: *to,
            amount: *amount,
        },
        TransactionData::Extension(ext) => TransactionData::Extension(ext.clone()),
    };
    SignedTransaction {
        pub_key: stx.pub_key,
        sig: stx.sig,
        tx: Transaction { nonce: stx.tx.nonce, data },
    }
}

/// What is written for the number of a kind of proposal: a word of four bytes,
/// least significant byte first, as on the machines that a rollup runs on.
pub open spec fn tag(n: u8) -> Seq<u8> {
    seq![n, 0u8, 0u8, 0u8]
}

impl Proposal {
    /// The writes by which a proposal is hashed: its kind, then its content. A
    /// text is ended by a byte that no text holds.
    pub open spec fn writes(self) -> Seq<Seq<u8>> {
        match self {
            Proposal::ChangeRootNode(node) => seq![tag(0), encode_utf8(node@), seq![0xffu8]],
            Proposal::ChangeQueueResponseTimeoutSeconds(timeout) => seq![tag(1), seq![timeout]],
            Proposal::ChangeMaxOutstandingPayments(max) => seq![tag(2), seq![max]],
            Proposal::ChangePaymentPeriodHours(period) => seq![tag(3), seq![period]],
            Proposal::Kick(node) => seq![tag(4), encode_utf8(node@), seq![0xffu8]],
        }
    }

    /// The number by which a proposal is known.
    pub open spec fn number(self) -> u64 {
        DefaultHasher::spec_finish(self.writes())
    }

    /// Feeds a proposal to a hasher.
    pub fn hash(&self, state: &mut DefaultHasher)
        ensures
            final(state)@ == old(state)@ + self.writes(),
    {
        let ghost before = state@;
        match self {
            Proposal::ChangeRootNode(node) => {
                state.write(&[0u8, 0u8, 0u8, 0u8]);
                state.write(node.as_str().as_bytes());
                state.write(&[0xffu8]);
            },
            Proposal::ChangeQueueResponseTimeoutSeconds(timeout) => {
                state.write(&[1u8, 0u8, 0u8, 0u8]);
                state.write(&[*timeout]);
            },
            Proposal::ChangeMaxOutstandingPayments(max) => {
                state.write(&[2u8, 0u8, 0u8, 0u8]);
                state.write(&[*max]);
            },
            Proposal::ChangePaymentPeriodHours(period) => {
                state.write(&[3u8, 0u8, 0u8, 0u8]);
                state.write(&[*period]);
            },
            Proposal::Kick(node) => {
                state.write(&[4u8, 0u8, 0u8, 0u8]);
                state.write(node.as_str().as_bytes());
                state.write(&[0xffu8]);
            },
        }
        proof {
            assert(state@ =~~= before + self.writes());
        }
    }

    /// Computes the number of a proposal.
    pub fn hash_number(&self) -> (r: u64)
        ensures
            r == self.number(),
    {
        let mut hasher = DefaultHasher::new();
        self.hash(&mut hasher);
        proof {
            assert(hasher@ =~= self.writes());
        }
        hasher.finish()
    }
}

/// Why a transaction is refused.
#[derive(Clone, Copy, Debug, PartialEq, Eq, Structural)]
pub enum EngineError {
    BadNonce,
    BadSig,
    InsufficientFunds,
    ProposalAlreadyExists,
}

impl EngineError {
    /// The words for a reason.
    pub open spec fn words(self) -> Seq<char> {
        match self {
            EngineError::BadNonce => "bad nonce"@,
            EngineError::BadSig => "bad sig"@,
            EngineError::InsufficientFunds => "insufficient funds"@,
            EngineError::ProposalAlreadyExists => "proposal already exists"@,
        }
    }

    /// The reason in words.
    pub fn message(self) -> (r: &'static str)
        ensures
            r@ == self.words(),
    {
        match self {
            EngineError::BadNonce => "bad nonce",
            EngineError::BadSig => "bad sig",
            EngineError::InsufficientFunds => "insufficient funds",
            EngineError::ProposalAlreadyExists => "proposal already exists",
        }
    }
}

/// The contents of a [`ProposalInProgress`].
#[verifier::ext_equal]
pub struct ProposalView {
    pub proposal: Proposal,
    pub votes: Map<String, SignedVote>,
}

impl View for ProposalInProgress {
    type V = ProposalView;

    open spec fn view(&self) -> ProposalView {
        ProposalView { proposal: self.proposal, votes: self.votes@ }
    }
}

/// The contents of a [`DaoState`].
#[verifier::ext_equal]
pub struct DaoView {
    pub root_node: Seq<char>,
    pub members: Map<String, Address>,
    pub proposals: Map<u64, ProposalView>,
    pub queue_response_timeout_seconds: u8,
    pub max_outstanding_payments: u8,
    pub payment_period_hours: u8,
}

impl View for DaoState {
    type V = DaoView;

    open spec fn view(&self) -> DaoView {
        DaoView {
            root_node: self.root_node@,
            members: self.members@,
            proposals: self.proposals@.map_values(|p: ProposalInProgress| p@),
            queue_response_timeout_seconds: self.queue_response_timeout_seconds,
            max_outstanding_payments: self.max_outstanding_payments,
            payment_period_hours: self.payment_period_hours,
        }
    }
}

/// The contents of a [`FullRollupState`].
#[verifier::ext_equal]
pub struct EngineView {
    pub sequenced: Seq<SignedTransaction<DaoTransaction>>,
    pub balances: Map<Address, U256>,
    pub nonces: Map<Address, U256>,
    pub withdrawals: Seq<(Address, U256)>,
    pub batches: Seq<WithdrawTreeView>,
    pub l1_block: U256,
    pub state: DaoView,
}

impl View for BaseRollupState<DaoState, DaoTransaction> {
    type V = EngineView;

    open spec fn view(&self) -> EngineView {
        EngineView {
            sequenced: self.sequenced@,
            balances: self.balances@,
            nonces: self.nonces@,
            withdrawals: self.withdrawals@,
            batches: batches_view(self.batches@),
            l1_block: self.l1_block,
            state: self.state@,
        }
    }
}

/// The state of a rollup in which nothing has happened yet.
pub open spec fn initial_state() -> EngineView {
    EngineView {
        sequenced: Seq::empty(),
        balances: Map::empty(),
        nonces: Map::empty(),
        withdrawals: Seq::empty(),
        batches: Seq::empty(),
        l1_block: u256(0),
        state: DaoView {
            root_node: Seq::empty(),
            members: Map::empty(),
            proposals: Map::empty(),
            queue_response_timeout_seconds: 5,
            max_outstanding_payments: 3,
            payment_period_hours: 24,
        },
    }
}

impl Default for BaseRollupState<DaoState, DaoTransaction> {
    fn default() -> (r: Self)
        ensures
            r@ == initial_state(),
    {
        let r = BaseRollupState {
            sequenced: Vec::new(),
            balances: Table::new(),
            nonces: Table::new(),
            withdrawals: Vec::new(),
            batches: Vec::new(),
            l1_block: U256::zero(),
            state: DaoState {
                root_node: String::new(),
                members: HashMap::new(),
                proposals: HashMap::new(),
                queue_response_timeout_seconds: DEFAULT_QUEUE_RESPONSE_TIMEOUT_SECONDS,
                max_outstanding_payments: DEFAULT_MAX_OUTSTANDING_PAYMENTS,
                payment_period_hours: DEFAULT_PAYMENT_PERIOD_HOURS,
            },
        };
        proof {
            assert(r@.state.proposals =~= initial_state().state.proposals);
            assert(r@ =~= initial_state());
        }
        r
    }
}

/// The nonce that the next transaction of `account` has to carry.
pub open spec fn next_nonce(s: EngineView, account: Address) -> U256 {
    balance(s.nonces, account)
}

/// Counts one more transaction of its sender.
pub open spec fn counted(s: EngineView, stx: SignedTransaction<DaoTransaction>) -> EngineView {
    EngineView { nonces: s.nonces.insert(stx.pub_key, u256(stx.tx.nonce.value() + 1)), ..s }
}

/// What a deposit does: the account is credited, and the block is the last one
/// that was taken into account.
pub open spec fn bridged(
    s: EngineView,
    account: Address,
    amount: U256,
    block: U256,
) -> EngineView {
    EngineView { balances: credit(s.balances, account, amount), l1_block: block, ..s }
}

/// What a withdrawal of the sender does: it is taken from their account, which
/// has to hold it, and noted for payment.
pub open spec fn withdrawn(
    s: EngineView,
    stx: SignedTransaction<DaoTransaction>,
    amount: U256,
) -> (EngineView, Result<(), EngineError>) {
    if s.balances[stx.pub_key].value() < amount.value() {
        (s, Err(EngineError::InsufficientFunds))
    } else {
        (
            EngineView {
                balances: debit(s.balances, stx.pub_key, amount),
                withdrawals: s.withdrawals.push((stx.pub_key, amount)),
                sequenced: s.sequenced.push(stx),
                ..s
            },
            Ok(()),
        )
    }
}

/// What a transfer does: it is taken from one account, which has to hold it, then
/// given to the other.
pub open spec fn transferred(
    s: EngineView,
    stx: SignedTransaction<DaoTransaction>,
    from: Address,
    to: Address,
    amount: U256,
) -> (EngineView, Result<(), EngineError>) {
    if s.balances[from].value() < amount.value() {
        (s, Err(EngineError::InsufficientFunds))
    } else {
        (
            EngineView {
                balances: credit(debit(s.balances, from, amount), to, amount),
                sequenced: s.sequenced.push(stx),
                ..s
            },
            Ok(()),
        )
    }
}

/// What a proposal does: it is put to the vote, unless one with its number is
/// already there.
pub open spec fn proposed(
    s: EngineView,
    stx: SignedTransaction<DaoTransaction>,
    proposal: Proposal,
) -> (EngineView, Result<(), EngineError>) {
    if s.state.proposals.contains_key(proposal.number()) {
        (s, Err(EngineError::ProposalAlreadyExists))
    } else {
        (
            EngineView {
                state: DaoView {
                    proposals: s.state.proposals.insert(
                        proposal.number(),
                        ProposalView { proposal, votes: Map::empty() },
                    ),
                    ..s.state
                },
                sequenced: s.sequenced.push(stx),
                ..s
            },
            Ok(()),
        )
    }
}

/// Whether a transaction needs no signature: deposits are taken from the chain
/// below.
pub open spec fn is_deposit(stx: SignedTransaction<DaoTransaction>) -> bool {
    stx.tx.data is BridgeTokens
}

/// Whether a transaction passes the nonce check and was signed by its sender.
pub open spec fn authentic(
    s: EngineView,
    stx: SignedTransaction<DaoTransaction>,
    signer: Option<Address>,
) -> bool {
    stx.tx.nonce == next_nonce(s, stx.pub_key) && signer == Some(stx.pub_key)
}

/// Whether a transaction can be carried out or refused. It can be neither where
/// its signature is needed and no signer can be recovered, and, once it is known
/// to be authentic, where it takes from an account that was never credited and
/// where it is a vote.
pub open spec fn answerable(
    s: EngineView,
    stx: SignedTransaction<DaoTransaction>,
    signer: Option<Address>,
) -> bool {
    is_deposit(stx) || stx.tx.nonce != next_nonce(s, stx.pub_key) || (signer is Some && (
    authentic(s, stx, signer) ==> match stx.tx.data {
        TransactionData::WithdrawTokens(_) => s.balances.contains_key(stx.pub_key),
        TransactionData::Transfer { from, .. } => s.balances.contains_key(from),
        TransactionData::Extension(DaoTransaction::Vote { .. }) => false,
        _ => true,
    }))
}

/// The state after a transaction, and the answer to its sender.
pub open spec fn engine_step(
    s: EngineView,
    stx: SignedTransaction<DaoTransaction>,
    signer: Option<Address>,
) -> (EngineView, Result<(), EngineError>) {
    match stx.tx.data {
        TransactionData::BridgeTokens { amount, block } => (
            bridged(s, stx.pub_key, amount, block),
            Ok(()),
        ),
        data => if stx.tx.nonce != next_nonce(s, stx.pub_key) {
            (s, Err(EngineError::BadNonce))
        } else if signer != Some(stx.pub_key) {
            (s, Err(EngineError::BadSig))
        } else {
            match data {
                TransactionData::WithdrawTokens(amount) => withdrawn(
                    counted(s, stx),
                    stx,
                    amount,
                ),
                TransactionData::Transfer { from, to, amount } => transferred(
                    counted(s, stx),
                    stx,
                    from,
                    to,
                    amount,
                ),
                TransactionData::Extension(DaoTransaction::Propose(proposal)) => proposed(
                    counted(s, stx),
                    stx,
                    proposal,
                ),
                _ => (counted(s, stx), Ok(())),
            }
        },
    }
}

/// The state after a transaction was received, and the answer to it; `None` where
/// it cannot be answered.
pub open spec fn posted_step(s: EngineView, posted: Posted<DaoTransaction>) -> (
    EngineView,
    Option<Result<(), EngineError>>,
) {
    let signer = crypto::recovered_address(posted.stx.sig, posted.message@);
    if answerable(s, posted.stx, signer) {
        let (t, r) = engine_step(s, posted.stx, signer);
        (t, Some(r))
    } else {
        (s, None)
    }
}

/// The state after a request over HTTP, and the reply to it.
pub open spec fn rpc_step(
    s: EngineView,
    method: Seq<char>,
    posted: Option<Posted<DaoTransaction>>,
) -> (EngineView, Option<Result<HttpReply, EngineError>>) {
    match method_named(method) {
        HttpMethod::Get => (s, Some(Ok(HttpReply { status: 200, body: HttpBody::State }))),
        HttpMethod::Post => match posted {
            None => (s, Some(Ok(HttpReply { status: 400, body: HttpBody::Empty }))),
            Some(p) => {
                let (t, r) = posted_step(s, p);
                (
                    t,
                    match r {
                        Some(Ok(_)) => Some(
                            Ok(HttpReply { status: 200, body: HttpBody::Receipt }),
                        ),
                        Some(Err(e)) => Some(Err(e)),
                        None => None,
                    },
                )
            },
        },
        HttpMethod::Other => (s, Some(Ok(HttpReply { status: 405, body: HttpBody::Empty }))),
    }
}

impl BaseRollupState<DaoState, DaoTransaction> {
    /// Carries out a proposal.
    fn propose(&mut self, stx: SignedTransaction<DaoTransaction>, proposal: Proposal) -> (r: Result<
        (),
        EngineError,
    >)
        ensures
            (final(self)@, r) == proposed(old(self)@, stx, proposal),
    {
        broadcast use vstd::std_specs::hash::group_hash_axioms;

        let number: u64 = proposal.hash_number();
        if self.state.proposals.contains_key(&number) {
            return Err(EngineError::ProposalAlreadyExists);
        }
        let entry = ProposalInProgress { proposal, votes: HashMap::new() };
        let _ = self.state.proposals.insert(number, entry);
        self.sequenced.push(stx);
        proof {
            assert(self@.state.proposals =~= proposed(
                old(self)@,
                stx,
                proposal,
            ).0.state.proposals);
        }
        Ok(())
    }

    /// Carries out a transaction that was signed by `signer`, if that is known.
    pub fn execute_signed(
        &mut self,
        stx: SignedTransaction<DaoTransaction>,
        signer: Option<Address>,
    ) -> (r: Result<(), EngineError>)
        requires
            answerable(old(self)@, stx, signer),
        ensures
            (final(self)@, r) == engine_step(old(self)@, stx, signer),
    {
        if let TransactionData::BridgeTokens { amount, block } = &stx.tx.data {
            credit_account(&mut self.balances, stx.pub_key, *amount);
            self.l1_block = *block;
            return Ok(());
        }
        if stx.tx.nonce != balance_of(&self.nonces, stx.pub_key) {
            return Err(EngineError::BadNonce);
        }
        match signer {
            Some(address) => {
                if address != stx.pub_key {
                    return Err(EngineError::BadSig);
                }
            },
            None => {
                return Err(EngineError::BadSig);
            },
        }
        self.nonces.insert(stx.pub_key, stx.tx.nonce.wrapping_add(U256::one()));
        match &stx.tx.data {
            TransactionData::WithdrawTokens(amount) => {
                let amount = *amount;
                if balance_of(&self.balances, stx.pub_key).less_than(amount) {
                    return Err(EngineError::InsufficientFunds);
                }
                debit_account(&mut self.balances, stx.pub_key, amount);
                self.withdrawals.push((stx.pub_key, amount));
                self.sequenced.push(stx);
                Ok(())
            },
            TransactionData::Transfer { from, to, amount } => {
                let (from, to, amount) = (*from, *to, *amount);
                if balance_of(&self.balances, from).less_than(amount) {
                    return Err(EngineError::InsufficientFunds);
                }
                debit_account(&mut self.balances, from, amount);
                credit_account(&mut self.balances, to, amount);
                self.sequenced.push(stx);
                Ok(())
            },
            TransactionData::Extension(DaoTransaction::Propose(proposal)) => {
                let proposal = proposal.clone();
                self.propose(stx, proposal)
            },
            _ => Ok(()),
        }
    }

    /// Tells whether a transaction can be answered.
    pub fn is_answerable(
        &self,
        stx: &SignedTransaction<DaoTransaction>,
        signer: Option<Address>,
    ) -> (r: bool)
        ensures
            r == answerable(self@, *stx, signer),
    {
        if let TransactionData::BridgeTokens { .. } = &stx.tx.data {
            return true;
        }
        if stx.tx.nonce != balance_of(&self.nonces, stx.pub_key) {
            return true;
        }
        match signer {
            Some(address) => {
                if address != stx.pub_key {
                    return true;
                }
            },
            None => {
                return false;
            },
        }
        match &stx.tx.data {
            TransactionData::WithdrawTokens(_) => self.balances.get(stx.pub_key).is_some(),
            TransactionData::Transfer { from, .. } => self.balances.get(*from).is_some(),
            TransactionData::Extension(DaoTransaction::Vote { .. }) => false,
            _ => true,
        }
    }

    /// Carries out a transaction. `msg` is the message that was signed: the
    /// transaction, written as JSON.
    pub fn execute(&mut self, stx: SignedTransaction<DaoTransaction>, msg: &[u8]) -> (r: Result<
        (),
        EngineError,
    >)
        requires
            answerable(old(self)@, stx, crypto::recovered_address(stx.sig, msg@)),
        ensures
            (final(self)@, r) == engine_step(
                old(self)@,
                stx,
                crypto::recovered_address(stx.sig, msg@),
            ),
    {
        let signer = crypto::recover_address_from_msg(&stx.sig, msg);
        self.execute_signed(stx, signer)
    }

    /// Carries out a transaction where it can be answered. Where it cannot, the
    /// result is `None` and the state stays as it was.
    pub fn try_execute(&mut self, stx: SignedTransaction<DaoTransaction>, msg: &[u8]) -> (r:
        Option<Result<(), EngineError>>)
        ensures
            ({
                let signer = crypto::recovered_address(stx.sig, msg@);
                if answerable(old(self)@, stx, signer) {
                    r is Some && (final(self)@, r->0) == engine_step(old(self)@, stx, signer)
                } else {
                    r is None && final(self)@ == old(self)@
                }
            }),
    {
        let signer = crypto::recover_address_from_msg(&stx.sig, msg);
        if self.is_answerable(&stx, signer) {
            Some(self.execute(stx, msg))
        } else {
            None
        }
    }

    /// Answers a request over HTTP. A read gets the whole state. A write brings a
    /// transaction, or nothing, which is a bad request; it is executed, and the
    /// reply is a receipt unless it is refused. The result is `None`, and the
    /// state stays as it was, where the transaction cannot be answered.
    pub fn rpc(&mut self, method: &str, posted: Option<Posted<DaoTransaction>>) -> (r: Option<
        Result<HttpReply, EngineError>,
    >)
        ensures
            (final(self)@, r) == rpc_step(old(self)@, method@, posted),
    {
        match http_method(method) {
            HttpMethod::Get => Some(Ok(HttpReply { status: STATUS_OK, body: HttpBody::State })),
            HttpMethod::Post => match posted {
                None => Some(
                    Ok(HttpReply { status: STATUS_BAD_REQUEST, body: HttpBody::Empty }),
                ),
                Some(p) => match self.try_execute(p.stx, p.message.as_slice()) {
                    Some(Ok(())) => Some(
                        Ok(HttpReply { status: STATUS_OK, body: HttpBody::Receipt }),
                    ),
                    Some(Err(e)) => Some(Err(e)),
                    None => None,
                },
            },
            HttpMethod::Other => Some(
                Ok(HttpReply { status: STATUS_METHOD_NOT_ALLOWED, body: HttpBody::Empty }),
            ),
        }
    }

    /// The state to start from: the one that was stored, if there is one.
    pub fn load(stored: Option<FullRollupState>) -> (r: FullRollupState)
        ensures
            match stored {
                Some(s) => r == s,
                None => r@ == initial_state(),
            },
    {
        match stored {
            Some(s) => s,
            None => FullRollupState::default(),
        }
    }
}

} // verus!
