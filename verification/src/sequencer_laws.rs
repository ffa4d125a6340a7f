//! What holds of the sequencer as a whole.

use vstd::prelude::*;
use crate::address::Address;
use crate::bridge::{event_step, BridgeEventView};
use crate::crypto::recovered_address;
use crate::engine::{
    authentic, is_deposit, posted_step, DaoTransaction, EngineError, EngineView,
};
use crate::engine_laws::law_value_is_conserved;
use crate::http::method_named;
use crate::numbers::{modulus, U256};
use crate::rollup::{Posted, SignedTransaction, TransactionData, WithdrawTreeView};
use crate::sequencer::{
    admin_state, batch_kept, batched, close_step, eth_step, handed_over, http_step, opened,
    proof_channel, push_refusal, remote_step, route_of, write_step, AdminActions, EthMessage,
    PushBlob, ReadRequest, RemoteMessage, RemoteReply, Route, SequencerError, SequencerView,
};
use crate::totals::{amount_value, paid, total};
use crate::tx_laws::{congruent, lemma_credit_total};

verus! {

/// Other nodes give no orders: their requests are reads and writes of the chain,
/// whatever process they claim to come from. Responses are not looked at.
pub proof fn law_other_nodes_give_no_orders(
    is_request: bool,
    source_node: Seq<char>,
    our_node: Seq<char>,
    process: Seq<char>,
)
    requires
        source_node != our_node || !is_request,
    ensures
        route_of(is_request, source_node, our_node, process) == (if is_request {
            Route::Remote
        } else {
            Route::Ignored
        }),
{
}

/// What is to be proved is what was carried out: a transaction is noted, with
/// the node that sent it, exactly when it was carried out, behind all that were
/// noted before. But for deposits it is then one that its sender has signed.
pub proof fn law_what_is_carried_out_is_proved(
    s: SequencerView,
    posted: Posted<DaoTransaction>,
    node: Option<String>,
)
    ensures
        ({
            let (t, r) = write_step(s, posted, node);
            &&& r == posted_step(s.rollup, posted).1
            &&& r == Some(Ok::<(), EngineError>(())) ==> t.sequenced == s.sequenced.push(
                (posted.stx, node),
            )
            &&& r != Some(Ok::<(), EngineError>(())) ==> t.sequenced == s.sequenced
            &&& r == Some(Ok::<(), EngineError>(())) ==> is_deposit(posted.stx) || authentic(
                s.rollup,
                posted.stx,
                recovered_address(posted.stx.sig, posted.message@),
            )
        }),
{
}

/// A transaction is treated alike whether it comes from another node or from the
/// own frontend: the rollup changes in the same way, and it is noted with the
/// node in the one case and without in the other.
pub proof fn law_writes_are_treated_alike(
    s: SequencerView,
    p: Posted<DaoTransaction>,
    node: String,
)
    ensures
        ({
            let (t, r) = remote_step(s, RemoteMessage::Write(Some(p)), node);
            let (u, q) = http_step(s, "POST"@, Some(p));
            &&& t.rollup == u.rollup
            &&& t.sequenced.len() == u.sequenced.len()
            &&& r is None <==> q is None
            &&& r == Some(Ok::<RemoteReply, SequencerError>(RemoteReply::Written)) <==> (q is Some
                && q->0 is Ok)
            &&& r is Some && r->0 is Err ==> q is Some && q->0 is Err && q->0->Err_0
                == r->0->Err_0
        }),
{
    reveal_strlit("GET");
    reveal_strlit("POST");
    assert("GET"@.len() != "POST"@.len());
}

/// To read changes nothing, over either way in.
pub proof fn law_reading_changes_nothing(
    s: SequencerView,
    request: ReadRequest,
    node: String,
    method: Seq<char>,
    posted: Option<Posted<DaoTransaction>>,
)
    ensures
        remote_step(s, RemoteMessage::Read(request), node).0 == s,
        !(method_named(method) is Post) ==> http_step(s, method, posted).0 == s,
{
}

/// The prover that has connected can be sent to, is listened to, and is the only
/// one that can close the connection. Once it has, nothing can be sent.
pub proof fn law_one_prover(s: SequencerView, channel: u32, other: u32, data: Vec<u8>)
    requires
        other != channel,
    ensures
        ({
            let t = opened(s, channel);
            &&& proof_channel(t) == Ok::<u32, SequencerError>(channel)
            &&& push_refusal(t, channel, true, PushBlob::Data(data)) is None
            &&& push_refusal(t, other, true, PushBlob::Data(data)) == Some(
                SequencerError::WrongChannel,
            )
            &&& close_step(t, other) == (
                t,
                Err::<(), SequencerError>(SequencerError::WrongCloseChannel),
            )
            &&& close_step(t, channel).1 is Ok
            &&& close_step(t, channel).0 == (SequencerView { connection: None, ..s })
            &&& proof_channel(close_step(t, channel).0) == Err::<u32, SequencerError>(
                SequencerError::NoConnection,
            )
        }),
{
}

/// The withdrawals in a list of batches, one batch after the other.
pub open spec fn listed(batches: Seq<WithdrawTreeView>) -> Seq<(Address, U256)>
    decreases batches.len(),
{
    if batches.len() == 0 {
        Seq::empty()
    } else {
        listed(batches.drop_last()) + batches.last().withdrawals
    }
}

/// Batching neither loses nor repeats a withdrawal: those that are batched and
/// those that wait, taken together and in order, are the same before and after.
/// No batch that was there is touched, and no account.
pub proof fn law_batching_keeps_withdrawals(s: EngineView, root: Seq<u8>)
    ensures
        ({
            let t = batch_kept(batched(s, root));
            &&& listed(t.batches) + t.withdrawals == listed(s.batches) + s.withdrawals
            &&& t.withdrawals.len() == 0
            &&& t.batches.len() == s.batches.len() + 1
            &&& t.batches.drop_last() == s.batches
            &&& t.batches.last().root == root
            &&& !t.batches.last().verified
            &&& t.balances == s.balances
            &&& t.nonces == s.nonces
        }),
{
    let t = batch_kept(batched(s, root));
    assert(t.batches.drop_last() =~= s.batches);
    assert(listed(t.batches) + t.withdrawals =~= listed(s.batches) + s.withdrawals);
}

/// Nothing is handed over to the prover twice: once the transactions have been
/// sent, the next one that is carried out is the only one to prove. The rollup is
/// not touched by it.
pub proof fn law_handed_over_once(
    s: SequencerView,
    posted: Posted<DaoTransaction>,
    node: Option<String>,
)
    ensures
        handed_over(s) == (SequencerView { sequenced: Seq::empty(), ..s }),
        write_step(handed_over(s), posted, node).0.rollup == write_step(s, posted, node).0.rollup,
        write_step(handed_over(s), posted, node).1 == write_step(s, posted, node).1,
        write_step(s, posted, node).1 == Some(Ok::<(), EngineError>(())) ==> write_step(
            handed_over(s),
            posted,
            node,
        ).0.sequenced == seq![(posted.stx, node)],
{
}

/// The transactions in a list that are not deposits, in order.
pub open spec fn signed(
    list: Seq<(SignedTransaction<DaoTransaction>, Option<String>)>,
) -> Seq<SignedTransaction<DaoTransaction>>
    decreases list.len(),
{
    if list.len() == 0 {
        Seq::empty()
    } else if is_deposit(list.last().0) {
        signed(list.drop_last())
    } else {
        signed(list.drop_last()).push(list.last().0)
    }
}

/// Whether what is to be proved, but for deposits, is what the rollup has sequenced
/// last.
pub open spec fn lists_agree(s: SequencerView) -> bool {
    signed(s.sequenced).is_suffix_of(s.rollup.sequenced)
}

/// The two lists of transactions agree, whatever is written, handed over to the
/// prover, told by the provider or ordered.
pub proof fn law_lists_agree(
    s: SequencerView,
    posted: Posted<DaoTransaction>,
    node: Option<String>,
    message: EthMessage,
    action: AdminActions,
)
    requires
        lists_agree(s),
    ensures
        lists_agree(write_step(s, posted, node).0),
        lists_agree(handed_over(s)),
        lists_agree(eth_step(s, message).0),
        lists_agree(admin_state(s, action)),
{
    let t = write_step(s, posted, node).0;
    if write_step(s, posted, node).1 == Some(Ok::<(), EngineError>(())) {
        assert(t.sequenced.drop_last() =~= s.sequenced);
        assert(signed(t.sequenced).is_suffix_of(t.rollup.sequenced));
    }
}

/// What can change a rollup: a transaction that was received, an event of the
/// bridge, and the batching of the withdrawals under a root.
pub enum Action {
    Write(Posted<DaoTransaction>),
    Event(BridgeEventView),
    Batch(Seq<u8>),
}

/// The rollup after an action.
pub open spec fn acted(s: EngineView, action: Action) -> EngineView {
    match action {
        Action::Write(posted) => posted_step(s, posted).0,
        Action::Event(event) => event_step(s, event).0,
        Action::Batch(root) => batch_kept(batched(s, root)),
    }
}

/// What an action brings in from the chain below.
pub open spec fn brought_in(action: Action) -> int {
    match action {
        Action::Write(posted) => match posted.stx.tx.data {
            TransactionData::BridgeTokens { amount, .. } => amount.value(),
            _ => 0,
        },
        Action::Event(BridgeEventView::Deposit { amount, .. }) => amount.value(),
        _ => 0,
    }
}

/// The rollup after a run of actions.
pub open spec fn history(s: EngineView, actions: Seq<Action>) -> EngineView
    decreases actions.len(),
{
    if actions.len() == 0 {
        s
    } else {
        acted(history(s, actions.drop_last()), actions.last())
    }
}

/// What a run of actions brings in.
pub open spec fn all_brought_in(actions: Seq<Action>) -> int
    decreases actions.len(),
{
    if actions.len() == 0 {
        0
    } else {
        all_brought_in(actions.drop_last()) + brought_in(actions.last())
    }
}

/// All that a rollup accounts for: what accounts hold, and every withdrawal,
/// batched or waiting.
pub open spec fn accounted(s: EngineView) -> int {
    total(s.balances, amount_value()) + paid(listed(s.batches) + s.withdrawals)
}

/// Batches with the same withdrawals list the same withdrawals.
proof fn lemma_listed_same(a: Seq<WithdrawTreeView>, b: Seq<WithdrawTreeView>)
    requires
        a.len() == b.len(),
        forall|i: int| 0 <= i < a.len() ==> (#[trigger] a[i]).withdrawals == b[i].withdrawals,
    ensures
        listed(a) == listed(b),
    decreases a.len(),
{
    if a.len() > 0 {
        lemma_listed_same(a.drop_last(), b.drop_last());
        assert(a[a.len() - 1].withdrawals == b[b.len() - 1].withdrawals);
    }
}

/// A sum of payments is the sum over its two parts.
proof fn lemma_paid_concat(a: Seq<(Address, U256)>, b: Seq<(Address, U256)>)
    ensures
        paid(a + b) == paid(a) + paid(b),
    decreases b.len(),
{
    if b.len() == 0 {
        assert(a + b =~= a);
    } else {
        lemma_paid_concat(a, b.drop_last());
        assert((a + b).drop_last() =~= a + b.drop_last());
    }
}

/// No value is made or lost on the way from deposit to withdrawal: through any
/// run of transactions, events of the bridge and batches, what the rollup accounts
/// for grows by what was deposited and by nothing else, modulo 2 to the 256.
pub proof fn law_value_is_accounted_for(s: EngineView, actions: Seq<Action>)
    requires
        s.balances.dom().finite(),
    ensures
        history(s, actions).balances.dom().finite(),
        congruent(accounted(history(s, actions)), accounted(s) + all_brought_in(actions)),
    decreases actions.len(),
{
    if actions.len() > 0 {
        let t = history(s, actions.drop_last());
        let action = actions.last();
        law_value_is_accounted_for(s, actions.drop_last());
        lemma_action_is_accounted_for(t, action);
        let d = accounted(t) - (accounted(s) + all_brought_in(actions.drop_last()));
        let e = accounted(acted(t, action)) - (accounted(t) + brought_in(action));
        assert((d + e) % modulus() == 0);
    }
}

/// What one action does to what the rollup accounts for.
proof fn lemma_action_is_accounted_for(s: EngineView, action: Action)
    requires
        s.balances.dom().finite(),
    ensures
        acted(s, action).balances.dom().finite(),
        congruent(accounted(acted(s, action)), accounted(s) + brought_in(action)),
{
    let t = acted(s, action);
    lemma_paid_concat(listed(s.batches), s.withdrawals);
    lemma_paid_concat(listed(t.batches), t.withdrawals);
    match action {
        Action::Write(posted) => {
            let signer = recovered_address(posted.stx.sig, posted.message@);
            law_value_is_conserved(s, posted.stx, signer);
            assert(t.batches == s.batches);
        },
        Action::Event(event) => {
            match event {
                BridgeEventView::Deposit { sender, amount, .. } => {
                    let k = lemma_credit_total(s.balances, sender, amount);
                    assert(accounted(t) == accounted(s) + amount.value() + k * modulus());
                },
                _ => {
                    lemma_listed_same(s.batches, t.batches);
                },
            }
        },
        Action::Batch(root) => {
            law_batching_keeps_withdrawals(s, root);
        },
    }
}

} // verus!
