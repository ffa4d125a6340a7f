//! What each transaction of the rollup of a DAO comes to, whoever sends it and
//! whatever else the rollup holds: when it is carried out, what it changes, and what
//! stays as it was.

use std::collections::hash_map::DefaultHasher;
use vstd::prelude::*;
use vstd::std_specs::hash::DefaultHasherAdditionalSpecFns;
use vstd::utf8::{encode_utf8, encode_utf8_decode_utf8};
use crate::address::Address;
use crate::crypto::recovered_address;
use crate::engine::{
    answerable, counted, engine_step, next_nonce, posted_step, rpc_step, DaoTransaction,
    EngineError, EngineView, FullRollupState, Proposal, SignedVote,
};
use crate::http::{HttpBody, HttpReply};
use crate::numbers::{lemma_u256_value, lemma_value_injective, modulus, U256};
use crate::rollup::{Posted, SignedTransaction, TransactionData};
use crate::tx::{credit, debit};
use crate::tx_outcomes::{
    held, lemma_add_reduced, lemma_credited, lemma_debited, lemma_fits, same_but,
};

verus! {

/// Whether a transaction carries the count of its sender: 0 for the first one.
pub open spec fn in_order(s: EngineView, stx: SignedTransaction<DaoTransaction>) -> bool {
    stx.tx.nonce.value() == held(s.nonces, stx.pub_key)
}

/// Whether one more transaction of `account` was counted, and of nobody else.
pub open spec fn one_more(s: EngineView, t: EngineView, account: Address) -> bool {
    &&& t.nonces.contains_key(account)
    &&& held(t.nonces, account) == (held(s.nonces, account) + 1) % modulus()
    &&& same_but(s.nonces, t.nonces, account, account)
}

/// The count that a transaction carries is the one it has to, as soon as the two
/// stand for one number.
proof fn lemma_in_order(s: EngineView, stx: SignedTransaction<DaoTransaction>)
    ensures
        in_order(s, stx) <==> stx.tx.nonce == next_nonce(s, stx.pub_key),
{
    lemma_u256_value(0);
    if in_order(s, stx) {
        lemma_value_injective(stx.tx.nonce, next_nonce(s, stx.pub_key));
    }
}

/// A deposit is carried out whoever sends it, signed or not and with any count. Its
/// amount is added to the one account, modulo 2 to the 256, its block is the last one
/// taken into account, and nothing else changes.
pub proof fn law_a_deposit_is_credited(
    s: EngineView,
    stx: SignedTransaction<DaoTransaction>,
    signer: Option<Address>,
    amount: U256,
    block: U256,
)
    requires
        stx.tx.data == (TransactionData::<DaoTransaction>::BridgeTokens { amount, block }),
    ensures
        answerable(s, stx, signer),
        ({
            let (t, r) = engine_step(s, stx, signer);
            &&& r is Ok
            &&& t.balances.contains_key(stx.pub_key)
            &&& held(t.balances, stx.pub_key) == (held(s.balances, stx.pub_key)
                + amount.value()) % modulus()
            &&& same_but(s.balances, t.balances, stx.pub_key, stx.pub_key)
            &&& t.l1_block == block
            &&& t == (EngineView { balances: t.balances, l1_block: block, ..s })
        }),
{
    lemma_credited(s.balances, stx.pub_key, amount);
}

/// But for deposits, a transaction out of order is refused for its count, whoever
/// signed it. In order, it is refused where somebody else has signed it, and has no
/// answer where no signer can be recovered. Nothing happens in any of these.
pub proof fn law_only_the_sender_counts(
    s: EngineView,
    stx: SignedTransaction<DaoTransaction>,
    signer: Option<Address>,
)
    requires
        !(stx.tx.data is BridgeTokens),
    ensures
        !in_order(s, stx) ==> answerable(s, stx, signer) && engine_step(s, stx, signer) == (
            s,
            Err::<(), EngineError>(EngineError::BadNonce),
        ),
        in_order(s, stx) && signer is None ==> !answerable(s, stx, signer),
        in_order(s, stx) && signer is Some && signer != Some(stx.pub_key) ==> answerable(
            s,
            stx,
            signer,
        ) && engine_step(s, stx, signer) == (s, Err::<(), EngineError>(EngineError::BadSig)),
{
    lemma_in_order(s, stx);
}

/// A withdrawal in order and signed by its sender is carried out exactly where the
/// sender's account holds the amount; where there is no account it has no answer. The
/// amount is taken from that account alone and noted for payment to the sender. It is
/// counted in either case.
pub proof fn law_a_covered_withdrawal_is_carried_out(
    s: EngineView,
    stx: SignedTransaction<DaoTransaction>,
    amount: U256,
)
    requires
        stx.tx.data == TransactionData::<DaoTransaction>::WithdrawTokens(amount),
        in_order(s, stx),
    ensures
        answerable(s, stx, Some(stx.pub_key)) <==> s.balances.contains_key(stx.pub_key),
        s.balances.contains_key(stx.pub_key) ==> {
            let (t, r) = engine_step(s, stx, Some(stx.pub_key));
            let covered = amount.value() <= held(s.balances, stx.pub_key);
            &&& one_more(s, t, stx.pub_key)
            &&& covered ==> {
                &&& r is Ok
                &&& held(t.balances, stx.pub_key) == held(s.balances, stx.pub_key)
                    - amount.value()
                &&& same_but(s.balances, t.balances, stx.pub_key, stx.pub_key)
                &&& t.withdrawals == s.withdrawals.push((stx.pub_key, amount))
                &&& t.sequenced == s.sequenced.push(stx)
                &&& t == (EngineView {
                    balances: t.balances,
                    nonces: t.nonces,
                    withdrawals: t.withdrawals,
                    sequenced: t.sequenced,
                    ..s
                })
            }
            &&& !covered ==> r == Err::<(), EngineError>(EngineError::InsufficientFunds) && t == (
            EngineView { nonces: t.nonces, ..s })
        },
{
    lemma_in_order(s, stx);
    lemma_counted(s, stx);
    lemma_debited(s.balances, stx.pub_key, amount);
    if s.balances.contains_key(stx.pub_key) && amount.value() <= held(s.balances, stx.pub_key) {
        lemma_fits(held(s.balances, stx.pub_key) - amount.value());
    }
}

/// What counting a transaction does to the counts.
proof fn lemma_counted(s: EngineView, stx: SignedTransaction<DaoTransaction>)
    requires
        in_order(s, stx),
    ensures
        one_more(s, counted(s, stx), stx.pub_key),
{
    lemma_u256_value(stx.tx.nonce.value() + 1);
}

/// What a covered transfer does to the accounts.
proof fn lemma_transferred(b: Map<Address, U256>, from: Address, to: Address, amount: U256)
    requires
        b.contains_key(from),
        amount.value() <= held(b, from),
    ensures
        ({
            let after = credit(debit(b, from, amount), to, amount);
            &&& after.contains_key(from) && after.contains_key(to)
            &&& from != to ==> held(after, from) == held(b, from) - amount.value()
            &&& from != to ==> held(after, to) == (held(b, to) + amount.value()) % modulus()
            &&& from == to ==> held(after, to) == held(b, to)
            &&& same_but(b, after, from, to)
        }),
{
    let once = debit(b, from, amount);
    lemma_debited(b, from, amount);
    lemma_credited(once, to, amount);
    lemma_add_reduced(held(b, from) - amount.value(), amount.value());
    lemma_fits(held(b, from) - amount.value());
    lemma_fits(held(b, from));
}

/// A transfer in order and signed by its sender is carried out exactly where the account
/// that it takes from holds the amount; where there is no such account it has no answer.
/// The amount leaves the one account and reaches the other, and no third account
/// changes. It is counted in either case.
#[verifier::rlimit(40)]
pub proof fn law_a_covered_transfer_is_carried_out(
    s: EngineView,
    stx: SignedTransaction<DaoTransaction>,
    from: Address,
    to: Address,
    amount: U256,
)
    requires
        stx.tx.data == (TransactionData::<DaoTransaction>::Transfer { from, to, amount }),
        in_order(s, stx),
    ensures
        answerable(s, stx, Some(stx.pub_key)) <==> s.balances.contains_key(from),
        s.balances.contains_key(from) ==> {
            let (t, r) = engine_step(s, stx, Some(stx.pub_key));
            let covered = amount.value() <= held(s.balances, from);
            &&& one_more(s, t, stx.pub_key)
            &&& covered ==> {
                &&& r is Ok
                &&& t.balances.contains_key(from) && t.balances.contains_key(to)
                &&& from != to ==> held(t.balances, from) == held(s.balances, from)
                    - amount.value()
                &&& from != to ==> held(t.balances, to) == (held(s.balances, to)
                    + amount.value()) % modulus()
                &&& from == to ==> held(t.balances, to) == held(s.balances, to)
                &&& same_but(s.balances, t.balances, from, to)
                &&& t.sequenced == s.sequenced.push(stx)
                &&& t == (EngineView {
                    balances: t.balances,
                    nonces: t.nonces,
                    sequenced: t.sequenced,
                    ..s
                })
            }
            &&& !covered ==> r == Err::<(), EngineError>(EngineError::InsufficientFunds) && t == (
            EngineView { nonces: t.nonces, ..s })
        },
{
    lemma_in_order(s, stx);
    lemma_counted(s, stx);
    if s.balances.contains_key(from) && amount.value() <= held(s.balances, from) {
        lemma_transferred(s.balances, from, to, amount);
        let (t, r) = engine_step(s, stx, Some(stx.pub_key));
        assert(t.balances == credit(debit(s.balances, from, amount), to, amount));
    }
}

/// A proposal in order and signed by its sender is refused only where one with its
/// number is there. Otherwise it is put to the vote as it was made, without votes, and
/// every other proposal stays. It is counted in either case, and no account changes.
pub proof fn law_a_new_proposal_is_put_to_the_vote(
    s: EngineView,
    stx: SignedTransaction<DaoTransaction>,
    proposal: Proposal,
)
    requires
        stx.tx.data == TransactionData::Extension(DaoTransaction::Propose(proposal)),
        in_order(s, stx),
    ensures
        answerable(s, stx, Some(stx.pub_key)),
        ({
            let (t, r) = engine_step(s, stx, Some(stx.pub_key));
            let n = proposal.number();
            let known = s.state.proposals.contains_key(n);
            &&& one_more(s, t, stx.pub_key)
            &&& known ==> r == Err::<(), EngineError>(EngineError::ProposalAlreadyExists) && t == (
            EngineView { nonces: t.nonces, ..s })
            &&& !known ==> {
                &&& r is Ok
                &&& t.state.proposals.contains_key(n)
                &&& t.state.proposals[n].proposal == proposal
                &&& t.state.proposals[n].votes == Map::<String, SignedVote>::empty()
                &&& t.state.proposals.remove(n) == s.state.proposals
                &&& t.state.root_node == s.state.root_node
                &&& t.state.members == s.state.members
                &&& t.state.queue_response_timeout_seconds
                    == s.state.queue_response_timeout_seconds
                &&& t.state.max_outstanding_payments == s.state.max_outstanding_payments
                &&& t.state.payment_period_hours == s.state.payment_period_hours
                &&& t.sequenced == s.sequenced.push(stx)
                &&& t == (EngineView {
                    state: t.state,
                    nonces: t.nonces,
                    sequenced: t.sequenced,
                    ..s
                })
            }
        }),
{
    lemma_in_order(s, stx);
    lemma_counted(s, stx);
    let t = engine_step(s, stx, Some(stx.pub_key)).0;
    if !s.state.proposals.contains_key(proposal.number()) {
        assert(t.state.proposals.remove(proposal.number()) =~= s.state.proposals);
    }
}

/// A vote in order and signed by its sender has no answer.
pub proof fn law_votes_are_not_taken(
    s: EngineView,
    stx: SignedTransaction<DaoTransaction>,
    item: u64,
    vote: SignedVote,
)
    requires
        stx.tx.data == TransactionData::Extension(DaoTransaction::Vote { item, vote }),
        in_order(s, stx),
    ensures
        !answerable(s, stx, Some(stx.pub_key)),
{
    lemma_in_order(s, stx);
}

/// A transaction that was received is answered by who signed the message that came
/// with it, and leaves the state as it was where it has no answer.
pub proof fn law_a_posted_transaction_is_answered(s: EngineView, p: Posted<DaoTransaction>)
    ensures
        ({
            let signer = recovered_address(p.stx.sig, p.message@);
            let (t, r) = posted_step(s, p);
            &&& r is Some <==> answerable(s, p.stx, signer)
            &&& r is Some ==> (t, r->0) == engine_step(s, p.stx, signer)
            &&& r is None ==> t == s
        }),
{
}

/// A read is always answered with the state, which it does not change. A write without
/// a transaction is a bad request. With one, it does what the transaction does, and is
/// answered by a receipt, or by the refusal. No other method is allowed.
pub proof fn law_requests_are_answered(
    s: EngineView,
    method: Seq<char>,
    posted: Option<Posted<DaoTransaction>>,
)
    ensures
        ({
            let (t, r) = rpc_step(s, method, posted);
            &&& method == "GET"@ ==> t == s && r == Some(
                Ok::<_, EngineError>(HttpReply { status: 200, body: HttpBody::State }),
            )
            &&& method == "POST"@ && posted is None ==> t == s && r == Some(
                Ok::<_, EngineError>(HttpReply { status: 400, body: HttpBody::Empty }),
            )
            &&& method == "POST"@ && posted is Some ==> {
                let (u, q) = posted_step(s, posted->0);
                &&& t == u
                &&& q is None <==> r is None
                &&& q is Some && q->0 is Ok <==> r == Some(
                    Ok::<_, EngineError>(HttpReply { status: 200, body: HttpBody::Receipt }),
                )
                &&& q is Some && q->0 is Err ==> r is Some && r->0 is Err && r->0->Err_0
                    == q->0->Err_0
            }
            &&& method != "GET"@ && method != "POST"@ ==> t == s && r == Some(
                Ok::<_, EngineError>(HttpReply { status: 405, body: HttpBody::Empty }),
            )
        }),
{
    reveal_strlit("GET");
    reveal_strlit("POST");
    assert("GET"@.len() != "POST"@.len());
}

/// Whether two proposals ask for the same change: they are of one sort, and name the
/// same node or the same number.
pub open spec fn same_change(p: Proposal, q: Proposal) -> bool {
    match (p, q) {
        (Proposal::ChangeRootNode(a), Proposal::ChangeRootNode(b)) => a@ == b@,
        (
            Proposal::ChangeQueueResponseTimeoutSeconds(a),
            Proposal::ChangeQueueResponseTimeoutSeconds(b),
        ) => a == b,
        (
            Proposal::ChangeMaxOutstandingPayments(a),
            Proposal::ChangeMaxOutstandingPayments(b),
        ) => a == b,
        (Proposal::ChangePaymentPeriodHours(a), Proposal::ChangePaymentPeriodHours(b)) => a == b,
        (Proposal::Kick(a), Proposal::Kick(b)) => a@ == b@,
        _ => false,
    }
}

/// Different proposals are hashed differently, and the same one always alike: what a
/// hasher is fed tells for which change it was. The number of a proposal is what a new
/// hasher gives once it has been fed that.
pub proof fn law_proposals_are_told_apart(p: Proposal, q: Proposal)
    ensures
        p.writes() == q.writes() <==> same_change(p, q),
        same_change(p, q) ==> p.number() == q.number(),
        p.number() == DefaultHasher::spec_finish(p.writes()),
{
    match (p, q) {
        (Proposal::ChangeRootNode(a), Proposal::ChangeRootNode(b)) => {
            lemma_fed_texts(p, q, a@, b@);
        },
        (Proposal::Kick(a), Proposal::Kick(b)) => {
            lemma_fed_texts(p, q, a@, b@);
        },
        (
            Proposal::ChangeQueueResponseTimeoutSeconds(a),
            Proposal::ChangeQueueResponseTimeoutSeconds(b),
        ) => {
            assert(p.writes()[1][0] == a && q.writes()[1][0] == b);
        },
        (
            Proposal::ChangeMaxOutstandingPayments(a),
            Proposal::ChangeMaxOutstandingPayments(b),
        ) => {
            assert(p.writes()[1][0] == a && q.writes()[1][0] == b);
        },
        (Proposal::ChangePaymentPeriodHours(a), Proposal::ChangePaymentPeriodHours(b)) => {
            assert(p.writes()[1][0] == a && q.writes()[1][0] == b);
        },
        _ => {
            assert(p.writes()[0][0] != q.writes()[0][0]);
        },
    }
}

/// Proposals that are fed with a text as their second write are fed alike only if the
/// texts are the same.
proof fn lemma_fed_texts(p: Proposal, q: Proposal, a: Seq<char>, b: Seq<char>)
    requires
        p.writes()[1] == encode_utf8(a),
        q.writes()[1] == encode_utf8(b),
    ensures
        p.writes() == q.writes() ==> a == b,
{
    encode_utf8_decode_utf8(a);
    encode_utf8_decode_utf8(b);
}

/// The bytes that a hasher is fed for a proposal, one after the other, are the number of
/// its sort, as a word of four bytes, then all of its content: the number that it names,
/// or the text of the node with a byte behind it that ends no other text.
pub proof fn law_the_whole_content_is_hashed(p: Proposal)
    ensures
        p matches Proposal::ChangeRootNode(node) ==> p.writes().flatten() == seq![
            0u8,
            0u8,
            0u8,
            0u8,
        ] + encode_utf8(node@) + seq![255u8],
        p matches Proposal::ChangeQueueResponseTimeoutSeconds(n) ==> p.writes().flatten() == seq![
            1u8,
            0u8,
            0u8,
            0u8,
            n,
        ],
        p matches Proposal::ChangeMaxOutstandingPayments(n) ==> p.writes().flatten() == seq![
            2u8,
            0u8,
            0u8,
            0u8,
            n,
        ],
        p matches Proposal::ChangePaymentPeriodHours(n) ==> p.writes().flatten() == seq![
            3u8,
            0u8,
            0u8,
            0u8,
            n,
        ],
        p matches Proposal::Kick(node) ==> p.writes().flatten() == seq![4u8, 0u8, 0u8, 0u8]
            + encode_utf8(node@) + seq![255u8],
{
    reveal_with_fuel(Seq::flatten, 4);
    let w = p.writes();
    let one = w.drop_first();
    let two = one.drop_first();
    if w.len() == 3 {
        assert(two.drop_first() =~= Seq::empty());
        assert(two.flatten() =~= w[2]);
        assert(one.flatten() =~= w[1] + w[2]);
        assert(w.flatten() =~= w[0] + w[1] + w[2]);
    } else {
        assert(two =~= Seq::empty());
        assert(one.flatten() =~= w[1]);
        assert(w.flatten() =~= w[0] + w[1]);
    }
}

/// What is said of a rollup is said of all that it holds: each list, account, count, batch
/// and member as it stands, and each proposal with its votes.
pub proof fn law_nothing_of_a_rollup_is_left_out(state: FullRollupState, n: u64, i: int)
    ensures
        state@.sequenced == state.sequenced@,
        state@.balances == state.balances@,
        state@.nonces == state.nonces@,
        state@.withdrawals == state.withdrawals@,
        state@.l1_block == state.l1_block,
        state@.batches.len() == state.batches@.len(),
        0 <= i < state.batches@.len() ==> {
            let shown = state@.batches[i];
            let batch = state.batches@[i];
            &&& shown.withdrawals == batch.withdrawals@
            &&& shown.root == batch.root@
            &&& shown.verified == batch.verified
        },
        state@.state.root_node == state.state.root_node@,
        state@.state.members == state.state.members@,
        state@.state.queue_response_timeout_seconds == state.state.queue_response_timeout_seconds,
        state@.state.max_outstanding_payments == state.state.max_outstanding_payments,
        state@.state.payment_period_hours == state.state.payment_period_hours,
        state@.state.proposals.contains_key(n) <==> state.state.proposals@.contains_key(n),
        state.state.proposals@.contains_key(n) ==> {
            let shown = state@.state.proposals[n];
            let entry = state.state.proposals@[n];
            &&& shown.proposal == entry.proposal
            &&& shown.votes == entry.votes@
        },
{
}

} // verus!
