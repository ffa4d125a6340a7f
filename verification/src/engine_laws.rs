//! What holds of the rollup of a DAO as a whole.

use vstd::prelude::*;
use crate::address::Address;
use crate::engine::{
    answerable, authentic, engine_step, initial_state, is_deposit, next_nonce, DaoTransaction,
    EngineError, EngineView, Proposal, ProposalView,
};
use crate::numbers::{lemma_u256_value, lemma_value_injective, modulus, u256, U256};
use crate::rollup::{SignedTransaction, TransactionData};
use crate::totals::{amount_value, lemma_paid_push, paid, total};
use crate::tx::{balance, debit};
use crate::tx_laws::{congruent, lemma_credit_total, lemma_debit_total};

verus! {

/// All that the rollup accounts for: what accounts hold, and what has been
/// withdrawn and not batched yet.
pub open spec fn holdings(s: EngineView) -> int {
    total(s.balances, amount_value()) + paid(s.withdrawals)
}

/// Nothing happens without authority: but for deposits, a transaction with the
/// wrong nonce or without the signature of its sender is refused, and the state
/// stays as it was.
pub proof fn law_only_authentic_transactions_count(
    s: EngineView,
    stx: SignedTransaction<DaoTransaction>,
    signer: Option<Address>,
)
    requires
        !is_deposit(stx),
        !authentic(s, stx, signer),
    ensures
        engine_step(s, stx, signer).0 == s,
        engine_step(s, stx, signer).1 == Err::<(), EngineError>(
            if stx.tx.nonce != next_nonce(s, stx.pub_key) {
                EngineError::BadNonce
            } else {
                EngineError::BadSig
            },
        ),
{
}

/// A refusal changes nothing but, once a transaction is authentic, the count of
/// its sender.
pub proof fn law_refusal_changes_the_nonce_at_most(
    s: EngineView,
    stx: SignedTransaction<DaoTransaction>,
    signer: Option<Address>,
)
    requires
        engine_step(s, stx, signer).1 is Err,
    ensures
        engine_step(s, stx, signer).0 == (EngineView {
            nonces: engine_step(s, stx, signer).0.nonces,
            ..s
        }),
        engine_step(s, stx, signer).0.nonces == (if authentic(s, stx, signer) {
            s.nonces.insert(stx.pub_key, u256(stx.tx.nonce.value() + 1))
        } else {
            s.nonces
        }),
{
}

/// The nonce of an account goes up by one with each authentic transaction of its
/// own, and with nothing else.
pub proof fn law_nonce_counts_one_transaction(
    s: EngineView,
    stx: SignedTransaction<DaoTransaction>,
    signer: Option<Address>,
    account: Address,
)
    ensures
        next_nonce(engine_step(s, stx, signer).0, account) == (if !is_deposit(stx) && authentic(
            s,
            stx,
            signer,
        ) && stx.pub_key == account {
            u256(next_nonce(s, account).value() + 1)
        } else {
            next_nonce(s, account)
        }),
{
}

/// The state after a run of transactions, each with who signed it.
pub open spec fn run(
    s: EngineView,
    trace: Seq<(SignedTransaction<DaoTransaction>, Option<Address>)>,
) -> EngineView
    decreases trace.len(),
{
    if trace.len() == 0 {
        s
    } else {
        let last = trace.last();
        engine_step(run(s, trace.drop_last()), last.0, last.1).0
    }
}

/// How many authentic transactions of an account are in a run.
pub open spec fn authentic_count(
    s: EngineView,
    trace: Seq<(SignedTransaction<DaoTransaction>, Option<Address>)>,
    account: Address,
) -> nat
    decreases trace.len(),
{
    if trace.len() == 0 {
        0
    } else {
        let last = trace.last();
        let before = run(s, trace.drop_last());
        authentic_count(s, trace.drop_last(), account) + (if !is_deposit(last.0) && authentic(
            before,
            last.0,
            last.1,
        ) && last.0.pub_key == account {
            1nat
        } else {
            0
        })
    }
}

/// Counting one further, modulo 2 to the 256.
proof fn lemma_one_more(n: int)
    ensures
        (n % modulus() + 1) % modulus() == (n + 1) % modulus(),
{
}

/// Over any run the nonce of an account goes up by the number of its authentic
/// transactions, modulo 2 to the 256.
pub proof fn law_nonce_counts(
    s: EngineView,
    trace: Seq<(SignedTransaction<DaoTransaction>, Option<Address>)>,
    account: Address,
)
    ensures
        authentic_count(s, trace, account) <= trace.len(),
        next_nonce(run(s, trace), account).value() == (next_nonce(s, account).value()
            + authentic_count(s, trace, account)) % modulus(),
    decreases trace.len(),
{
    if trace.len() > 0 {
        let init = trace.drop_last();
        let last = trace.last();
        law_nonce_counts(s, init, account);
        law_nonce_counts_one_transaction(run(s, init), last.0, last.1, account);
        let counted = next_nonce(s, account).value() + authentic_count(s, init, account);
        lemma_u256_value(next_nonce(run(s, init), account).value() + 1);
        lemma_one_more(counted);
    } else {
        let n = next_nonce(s, account).value();
        assert(n % modulus() == n);
    }
}

/// No transaction counts twice: once it has been authentic, it is refused for its
/// nonce however often and by whoever it is sent again, for as long as fewer than
/// 2 to the 256 transactions, less one, have come in between.
pub proof fn law_no_replay(
    s: EngineView,
    stx: SignedTransaction<DaoTransaction>,
    signer: Option<Address>,
    between: Seq<(SignedTransaction<DaoTransaction>, Option<Address>)>,
    again: Option<Address>,
)
    requires
        !is_deposit(stx),
        authentic(s, stx, signer),
        between.len() < modulus() - 1,
    ensures
        ({
            let t = run(engine_step(s, stx, signer).0, between);
            &&& engine_step(t, stx, again).0 == t
            &&& engine_step(t, stx, again).1 == Err::<(), EngineError>(EngineError::BadNonce)
        }),
{
    let first = engine_step(s, stx, signer).0;
    law_nonce_counts_one_transaction(s, stx, signer, stx.pub_key);
    law_nonce_counts(first, between, stx.pub_key);
    let n = stx.tx.nonce.value();
    lemma_u256_value(n + 1);
    let c = authentic_count(first, between, stx.pub_key);
    let t = run(first, between);
    assert(next_nonce(t, stx.pub_key).value() == ((n + 1) % modulus() + c) % modulus());
    assert(next_nonce(t, stx.pub_key) != stx.tx.nonce);
}

/// No transaction but a deposit makes value, and none destroys it: what the
/// rollup accounts for grows by the amount of a deposit and by nothing else,
/// modulo 2 to the 256.
pub proof fn law_value_is_conserved(
    s: EngineView,
    stx: SignedTransaction<DaoTransaction>,
    signer: Option<Address>,
)
    requires
        s.balances.dom().finite(),
    ensures
        engine_step(s, stx, signer).0.balances.dom().finite(),
        congruent(
            holdings(engine_step(s, stx, signer).0),
            holdings(s) + (match stx.tx.data {
                TransactionData::BridgeTokens { amount, .. } => amount.value(),
                _ => 0,
            }),
        ),
{
    let t = engine_step(s, stx, signer).0;
    match stx.tx.data {
        TransactionData::BridgeTokens { amount, .. } => {
            let k = lemma_credit_total(s.balances, stx.pub_key, amount);
            assert(holdings(t) == holdings(s) + amount.value() + k * modulus());
        },
        TransactionData::WithdrawTokens(amount) => {
            if engine_step(s, stx, signer).1 is Ok {
                let k = lemma_debit_total(s.balances, stx.pub_key, amount);
                lemma_paid_push(s.withdrawals, stx.pub_key, amount);
                assert(holdings(t) == holdings(s) + k * modulus());
            }
        },
        TransactionData::Transfer { from, to, amount } => {
            if engine_step(s, stx, signer).1 is Ok {
                let k = lemma_debit_total(s.balances, from, amount);
                let l = lemma_credit_total(debit(s.balances, from, amount), to, amount);
                assert(holdings(t) == holdings(s) + (k + l) * modulus());
            }
        },
        TransactionData::Extension(_) => {},
    }
}

/// No account is overdrawn: a withdrawal that is carried out takes exactly its
/// amount from an account that holds it, notes it for payment, and touches no
/// other account.
pub proof fn law_withdrawal_is_covered(
    s: EngineView,
    stx: SignedTransaction<DaoTransaction>,
    signer: Option<Address>,
    amount: U256,
)
    requires
        stx.tx.data == TransactionData::<DaoTransaction>::WithdrawTokens(amount),
        answerable(s, stx, signer),
        engine_step(s, stx, signer).1 is Ok,
    ensures
        ({
            let t = engine_step(s, stx, signer).0;
            &&& amount.value() <= balance(s.balances, stx.pub_key).value()
            &&& balance(t.balances, stx.pub_key).value() == balance(
                s.balances,
                stx.pub_key,
            ).value() - amount.value()
            &&& t.balances.remove(stx.pub_key) == s.balances.remove(stx.pub_key)
            &&& t.withdrawals == s.withdrawals.push((stx.pub_key, amount))
        }),
{
    let t = engine_step(s, stx, signer).0;
    lemma_u256_value(s.balances[stx.pub_key].value() - amount.value());
    assert(t.balances.remove(stx.pub_key) =~= s.balances.remove(stx.pub_key));
}

/// A transfer that is carried out takes exactly its amount from an account that
/// holds it and gives it to the other one, and touches no third account. To the
/// account itself it changes nothing.
pub proof fn law_transfer_is_covered(
    s: EngineView,
    stx: SignedTransaction<DaoTransaction>,
    signer: Option<Address>,
    from: Address,
    to: Address,
    amount: U256,
)
    requires
        stx.tx.data == (TransactionData::<DaoTransaction>::Transfer { from, to, amount }),
        answerable(s, stx, signer),
        engine_step(s, stx, signer).1 is Ok,
    ensures
        ({
            let t = engine_step(s, stx, signer).0;
            &&& amount.value() <= balance(s.balances, from).value()
            &&& from != to ==> balance(t.balances, from).value() == balance(
                s.balances,
                from,
            ).value() - amount.value()
            &&& from != to ==> balance(t.balances, to).value() == (balance(
                s.balances,
                to,
            ).value() + amount.value()) % modulus()
            &&& from == to ==> t.balances == s.balances
            &&& t.balances.remove(from).remove(to) == s.balances.remove(from).remove(to)
        }),
{
    let t = engine_step(s, stx, signer).0;
    let b = s.balances[from].value();
    lemma_u256_value(b - amount.value());
    if from == to {
        lemma_u256_value(u256(b - amount.value()).value() + amount.value());
        lemma_value_injective(t.balances[from], s.balances[from]);
        assert(t.balances =~= s.balances);
    } else {
        lemma_u256_value(balance(s.balances, to).value() + amount.value());
    }
    assert(t.balances.remove(from).remove(to) =~= s.balances.remove(from).remove(to));
}

/// What has been proposed stays, as it is, through any run of transactions; and
/// no transaction changes how the DAO is run.
pub proof fn law_proposals_stay(
    s: EngineView,
    trace: Seq<(SignedTransaction<DaoTransaction>, Option<Address>)>,
)
    ensures
        s.state.proposals.submap_of(run(s, trace).state.proposals),
        run(s, trace).state.root_node == s.state.root_node,
        run(s, trace).state.members == s.state.members,
        run(s, trace).state.queue_response_timeout_seconds
            == s.state.queue_response_timeout_seconds,
        run(s, trace).state.max_outstanding_payments == s.state.max_outstanding_payments,
        run(s, trace).state.payment_period_hours == s.state.payment_period_hours,
    decreases trace.len(),
{
    if trace.len() > 0 {
        let last = trace.last();
        let before = run(s, trace.drop_last());
        let after = engine_step(before, last.0, last.1).0;
        law_proposals_stay(s, trace.drop_last());
        assert forall|n: u64| #[trigger]
            s.state.proposals.contains_key(n) implies after.state.proposals.contains_key(n)
            && after.state.proposals[n] == s.state.proposals[n] by {
            assert(before.state.proposals.contains_key(n));
            assert(before.state.proposals[n] == s.state.proposals[n]);
        }
    }
}

/// A proposal that is put to the vote starts without votes, under its number.
/// After any run of transactions it is refused if it is made again.
pub proof fn law_proposed_once(
    s: EngineView,
    proposal: Proposal,
    first: SignedTransaction<DaoTransaction>,
    signer: Option<Address>,
    between: Seq<(SignedTransaction<DaoTransaction>, Option<Address>)>,
    second: SignedTransaction<DaoTransaction>,
    again: Option<Address>,
)
    requires
        first.tx.data == TransactionData::Extension(DaoTransaction::Propose(proposal)),
        second.tx.data == TransactionData::Extension(DaoTransaction::Propose(proposal)),
        engine_step(s, first, signer).1 is Ok,
        authentic(run(engine_step(s, first, signer).0, between), second, again),
    ensures
        engine_step(s, first, signer).0.state.proposals.contains_key(proposal.number()),
        engine_step(s, first, signer).0.state.proposals[proposal.number()] == (ProposalView {
            proposal,
            votes: Map::empty(),
        }),
        engine_step(run(engine_step(s, first, signer).0, between), second, again).1 == Err::<
            (),
            EngineError,
        >(EngineError::ProposalAlreadyExists),
{
    let t = engine_step(s, first, signer).0;
    law_proposals_stay(t, between);
    assert(t.state.proposals.contains_key(proposal.number()));
    assert(run(t, between).state.proposals.contains_key(proposal.number()));
}

/// Every transaction that is carried out is sequenced, in order and as it was
/// received. Deposits and what is refused are not.
pub proof fn law_sequenced(
    s: EngineView,
    stx: SignedTransaction<DaoTransaction>,
    signer: Option<Address>,
)
    requires
        answerable(s, stx, signer),
    ensures
        engine_step(s, stx, signer).0.sequenced == (if !is_deposit(stx) && engine_step(
            s,
            stx,
            signer,
        ).1 is Ok {
            s.sequenced.push(stx)
        } else {
            s.sequenced
        }),
{
}

/// Whether each proposal stands under its own number.
pub open spec fn filed_by_number(s: EngineView) -> bool {
    forall|n: u64| #[trigger]
        s.state.proposals.contains_key(n) ==> s.state.proposals[n].proposal.number() == n
}

/// A proposal is found under its number, and only there: that holds of a new
/// rollup, and every transaction keeps it.
pub proof fn law_proposals_are_filed_by_number(
    s: EngineView,
    stx: SignedTransaction<DaoTransaction>,
    signer: Option<Address>,
)
    requires
        filed_by_number(s),
    ensures
        filed_by_number(initial_state()),
        filed_by_number(engine_step(s, stx, signer).0),
{
}

} // verus!
