use dao_rollup::address::Address;
use dao_rollup::crypto::{Parity, Signature};
use dao_rollup::engine::{
    copy_transaction, DaoTransaction, EngineError, FullRollupState, Proposal, SignedVote, Vote,
};
use dao_rollup::http::{HttpBody, HttpReply};
use dao_rollup::numbers::U256;
use dao_rollup::rollup::{Posted, SignedTransaction, Transaction, TransactionData};
use std::collections::hash_map::DefaultHasher;
use std::hash::{Hash, Hasher};

const ALICE: Address = Address { hi: 0xe05fcc23, lo: 0x807536bee418f142d19fa0d21bb0cff7 };
const BOB: Address = Address { hi: 0x0376aac0, lo: 0x7ad725e01357b1725b5cec61ae10473c };

type Data = TransactionData<DaoTransaction>;

/// The signature of Alice on the message "alice".
fn alice_sig() -> Signature {
    Signature {
        r: U256 {
            hi: 0xcfdffae24cf8eb9be0f8ca5cf7f0a950,
            lo: 0x19b94095eedc33332a4b048c42e2a056,
        },
        s: U256 {
            hi: 0x6988f6f7ff4bef1efe786ac4d6218a12,
            lo: 0xc677108583ffc21fa27e3618bc0aa6c2,
        },
        v: Parity::Parity(true),
    }
}

fn n(value: u64) -> U256 {
    U256::from_u64(value)
}

fn from_alice(nonce: u64, data: Data) -> SignedTransaction<DaoTransaction> {
    SignedTransaction {
        pub_key: ALICE,
        sig: alice_sig(),
        tx: Transaction { nonce: n(nonce), data },
    }
}

fn run(state: &mut FullRollupState, nonce: u64, data: Data) -> Option<Result<(), EngineError>> {
    state.try_execute(from_alice(nonce, data), b"alice")
}

fn withdraw(amount: u64) -> Data {
    TransactionData::WithdrawTokens(n(amount))
}

fn bridge(amount: u64, block: u64) -> Data {
    TransactionData::BridgeTokens { amount: n(amount), block: n(block) }
}

fn propose(proposal: Proposal) -> Data {
    TransactionData::Extension(DaoTransaction::Propose(proposal))
}

fn holds(state: &FullRollupState, account: Address) -> U256 {
    *state.balances.get(account).expect("an account")
}

/// A rollup in which Alice holds 10.
fn funded() -> FullRollupState {
    let mut state = FullRollupState::default();
    assert_eq!(run(&mut state, 99, bridge(10, 7)), Some(Ok(())));
    state
}

#[test]
fn a_new_rollup() {
    let state = FullRollupState::default();
    assert!(state.sequenced.is_empty() && state.withdrawals.is_empty());
    assert!(state.batches.is_empty());
    assert_eq!((state.balances.len(), state.nonces.len()), (0, 0));
    assert_eq!(state.l1_block, U256::zero());
    assert_eq!(state.state.root_node, "");
    assert!(state.state.members.is_empty() && state.state.proposals.is_empty());
    assert_eq!(state.state.queue_response_timeout_seconds, 5);
    assert_eq!(state.state.max_outstanding_payments, 3);
    assert_eq!(state.state.payment_period_hours, 24);
}

#[test]
fn a_deposit_needs_no_signature() {
    let mut state = FullRollupState::default();
    let stx = SignedTransaction {
        pub_key: BOB,
        sig: Signature { r: n(0), s: n(0), v: Parity::Eip155(1) },
        tx: Transaction { nonce: n(5), data: bridge(3, 8) },
    };
    assert_eq!(state.execute(stx, b""), Ok(()));
    assert_eq!(holds(&state, BOB), n(3));
    assert_eq!(state.l1_block, n(8));
    assert_eq!(state.nonces.len(), 0);
    assert!(state.sequenced.is_empty());
}

#[test]
fn a_withdrawal_is_noted_for_payment() {
    let mut state = funded();
    assert_eq!(run(&mut state, 0, withdraw(4)), Some(Ok(())));
    assert_eq!(holds(&state, ALICE), n(6));
    assert_eq!(state.withdrawals, vec![(ALICE, n(4))]);
    assert_eq!(state.sequenced.len(), 1);
    assert_eq!(state.nonces.get(ALICE), Some(&n(1)));
}

#[test]
fn no_account_is_overdrawn() {
    let mut state = funded();
    let broke = Some(Err(EngineError::InsufficientFunds));
    assert_eq!(run(&mut state, 0, withdraw(11)), broke);
    let data = TransactionData::Transfer { from: ALICE, to: BOB, amount: n(11) };
    assert_eq!(run(&mut state, 1, data), broke);
    assert_eq!(holds(&state, ALICE), n(10));
    assert!(state.withdrawals.is_empty() && state.sequenced.is_empty());
    // A refused transaction has been counted all the same.
    assert_eq!(state.nonces.get(ALICE), Some(&n(2)));
    assert_eq!(run(&mut state, 2, withdraw(10)), Some(Ok(())));
    assert_eq!(holds(&state, ALICE), n(0));
}

#[test]
fn a_transfer_moves_an_amount() {
    let mut state = funded();
    let data = TransactionData::Transfer { from: ALICE, to: BOB, amount: n(4) };
    assert_eq!(run(&mut state, 0, data), Some(Ok(())));
    assert_eq!((holds(&state, ALICE), holds(&state, BOB)), (n(6), n(4)));
    let data = TransactionData::Transfer { from: BOB, to: BOB, amount: n(4) };
    assert_eq!(run(&mut state, 1, data), Some(Ok(())));
    assert_eq!((holds(&state, ALICE), holds(&state, BOB)), (n(6), n(4)));
}

#[test]
fn nothing_is_replayed() {
    let mut state = funded();
    assert_eq!(run(&mut state, 0, withdraw(1)), Some(Ok(())));
    assert_eq!(run(&mut state, 0, withdraw(1)), Some(Err(EngineError::BadNonce)));
    assert_eq!(run(&mut state, 2, withdraw(1)), Some(Err(EngineError::BadNonce)));
    assert_eq!(run(&mut state, 1, withdraw(1)), Some(Ok(())));
    assert_eq!(run(&mut state, 0, withdraw(1)), Some(Err(EngineError::BadNonce)));
    assert_eq!(holds(&state, ALICE), n(8));
}

#[test]
fn only_the_sender_signs() {
    let mut state = funded();
    let mut stx = from_alice(0, withdraw(1));
    stx.pub_key = BOB;
    assert_eq!(state.try_execute(stx, b"alice"), Some(Err(EngineError::BadSig)));
    let stx = from_alice(0, withdraw(1));
    assert_eq!(state.try_execute(stx, b"malice"), Some(Err(EngineError::BadSig)));
    assert_eq!(state.nonces.len(), 0);
    assert_eq!(holds(&state, ALICE), n(10));
}

#[test]
fn the_signed_message_is_json() {
    let mut state = funded();
    let sig = Signature {
        r: U256 {
            hi: 0xeab8755a29db90a629b95ca43a47760b,
            lo: 0xb90c577f815eeb64b9b9a34005e3a945,
        },
        s: U256 {
            hi: 0x503454068dc6d658ad7f50ebe87c5045,
            lo: 0xd6377778f0b6c7466b0579734b2eb880,
        },
        v: Parity::NonEip155(false),
    };
    let stx = SignedTransaction {
        pub_key: ALICE,
        sig,
        tx: Transaction { nonce: n(0), data: withdraw(5) },
    };
    let msg = b"{\"nonce\":\"0x0\",\"data\":{\"WithdrawTokens\":\"0x5\"}}";
    assert_eq!(state.execute(stx, msg), Ok(()));
    assert_eq!(holds(&state, ALICE), n(5));
}

#[test]
fn what_cannot_be_answered() {
    let mut state = FullRollupState::default();
    // Neither account was ever credited.
    assert_eq!(run(&mut state, 0, withdraw(0)), None);
    let data = TransactionData::Transfer { from: BOB, to: ALICE, amount: n(0) };
    assert_eq!(run(&mut state, 0, data), None);
    // Votes are not taken yet.
    let vote = SignedVote { vote: Vote { proposal_hash: 1, is_yea: true }, signature: 0 };
    let data = TransactionData::Extension(DaoTransaction::Vote { item: 1, vote });
    assert_eq!(run(&mut state, 0, data), None);
    // No signer can be recovered.
    let mut stx = from_alice(0, withdraw(1));
    stx.sig.r = n(0);
    assert_eq!(state.try_execute(stx, b"alice"), None);
    // With a wrong nonce none of that is looked at.
    assert_eq!(run(&mut state, 1, withdraw(0)), Some(Err(EngineError::BadNonce)));
    assert_eq!(state.nonces.len(), 0);
}

#[test]
fn a_proposal_is_put_to_the_vote_once() {
    let mut state = funded();
    let kick = || Proposal::Kick("bob.os".to_string());
    assert_eq!(run(&mut state, 0, propose(kick())), Some(Ok(())));
    let number = kick().hash_number();
    let entry = state.state.proposals.get(&number).expect("the proposal");
    assert!(matches!(&entry.proposal, Proposal::Kick(node) if node == "bob.os"));
    assert!(entry.votes.is_empty());
    assert_eq!(
        run(&mut state, 1, propose(kick())),
        Some(Err(EngineError::ProposalAlreadyExists))
    );
    let other = Proposal::ChangeRootNode("bob.os".to_string());
    assert_eq!(run(&mut state, 2, propose(other)), Some(Ok(())));
    assert_eq!(state.state.proposals.len(), 2);
    assert_eq!(state.sequenced.len(), 2);
    assert_eq!(state.state.root_node, "");
}

#[test]
fn proposals_are_numbered_by_their_hash() {
    let mut hasher = DefaultHasher::new();
    0.hash(&mut hasher);
    "näme.os".to_string().hash(&mut hasher);
    let proposal = Proposal::ChangeRootNode("näme.os".to_string());
    assert_eq!(proposal.hash_number(), hasher.finish());

    let numbered = [
        (1, 30u8, Proposal::ChangeQueueResponseTimeoutSeconds(30)),
        (2, 4u8, Proposal::ChangeMaxOutstandingPayments(4)),
        (3, 255u8, Proposal::ChangePaymentPeriodHours(255)),
    ];
    for (kind, value, proposal) in numbered {
        let mut hasher = DefaultHasher::new();
        kind.hash(&mut hasher);
        value.hash(&mut hasher);
        assert_eq!(proposal.hash_number(), hasher.finish());
    }

    let mut hasher = DefaultHasher::new();
    4.hash(&mut hasher);
    String::new().hash(&mut hasher);
    assert_eq!(Proposal::Kick(String::new()).hash_number(), hasher.finish());
    let mut ours = DefaultHasher::new();
    Proposal::Kick(String::new()).hash(&mut ours);
    assert_eq!(ours.finish(), hasher.finish());
}

#[test]
fn value_is_conserved_by_the_engine() {
    let sum = |state: &FullRollupState| {
        let held: u128 = state.balances.entries().iter().map(|e| e.1.lo).sum();
        let paid: u128 = state.withdrawals.iter().map(|w| w.1.lo).sum();
        held + paid
    };
    let mut state = funded();
    assert_eq!(run(&mut state, 0, withdraw(3)), Some(Ok(())));
    let data = TransactionData::Transfer { from: ALICE, to: BOB, amount: n(4) };
    assert_eq!(run(&mut state, 1, data), Some(Ok(())));
    assert_eq!(sum(&state), 10);
    assert_eq!(run(&mut state, 0, bridge(5, 8)), Some(Ok(())));
    assert_eq!(sum(&state), 15);
}

#[test]
fn execution_follows_the_signer() {
    let mut state = funded();
    let stx = from_alice(0, withdraw(1));
    assert!(!state.is_answerable(&stx, None));
    assert!(state.is_answerable(&stx, Some(BOB)));
    assert_eq!(state.execute_signed(stx, Some(BOB)), Err(EngineError::BadSig));
    assert_eq!(state.execute_signed(from_alice(0, withdraw(1)), Some(ALICE)), Ok(()));
    assert_eq!(holds(&state, ALICE), n(9));
}

#[test]
fn requests_over_http() {
    let mut state = funded();
    let reply = |status: u16, body: HttpBody| Some(Ok(HttpReply { status, body }));
    assert_eq!(state.rpc("GET", None), reply(200, HttpBody::State));
    assert_eq!(state.rpc("POST", None), reply(400, HttpBody::Empty));
    assert_eq!(state.rpc("DELETE", None), reply(405, HttpBody::Empty));
    let posted = |nonce: u64, amount: u64| {
        Some(Posted { stx: from_alice(nonce, withdraw(amount)), message: b"alice".to_vec() })
    };
    assert_eq!(state.rpc("POST", posted(0, 2)), reply(200, HttpBody::Receipt));
    assert_eq!(state.rpc("POST", posted(0, 2)), Some(Err(EngineError::BadNonce)));
    assert_eq!(state.rpc("PUT", posted(1, 2)), reply(405, HttpBody::Empty));
    assert_eq!(holds(&state, ALICE), n(8));
}

#[test]
fn loading_takes_what_was_stored() {
    let state = FullRollupState::load(Some(funded()));
    assert_eq!(holds(&state, ALICE), n(10));
    let state = FullRollupState::load(None);
    assert_eq!(state.balances.len(), 0);
}

#[test]
fn a_copy_of_a_transaction() {
    let stx = from_alice(3, propose(Proposal::Kick("x".to_string())));
    let copy = copy_transaction(&stx);
    assert_eq!(format!("{:?}", copy), format!("{:?}", stx));
}

#[test]
fn engine_refusals_in_words() {
    assert_eq!(EngineError::BadNonce.message(), "bad nonce");
    assert_eq!(EngineError::BadSig.message(), "bad sig");
    assert_eq!(EngineError::InsufficientFunds.message(), "insufficient funds");
    assert_eq!(EngineError::ProposalAlreadyExists.message(), "proposal already exists");
}
