//! What holds of the bridge as a whole.

use vstd::prelude::*;
use crate::bridge::{
    confirmed, event_of, event_step, has_batch, next_block, replayed, BridgeError,
    BridgeEventView, Log, LogOutcome,
};
use crate::engine::EngineView;
use crate::numbers::modulus;
use crate::totals::{amount_value, total};
use crate::tx_laws::{congruent, lemma_credit_total};

verus! {

/// A batch is confirmed only by its own root. The confirmation sets the mark of
/// that batch and touches nothing else.
pub proof fn law_confirmation_sets_one_mark(s: EngineView, index: int, root: Seq<u8>)
    requires
        has_batch(s, index, root),
    ensures
        ({
            let t = event_step(s, BridgeEventView::BatchPosted { index, root }).0;
            &&& t.batches.len() == s.batches.len()
            &&& t.batches[index].verified
            &&& t.batches[index].root == root
            &&& t.batches[index].withdrawals == s.batches[index].withdrawals
            &&& forall|i: int|
                0 <= i < s.batches.len() && i != index ==> #[trigger] t.batches[i] == s.batches[i]
            &&& t == (EngineView { batches: t.batches, ..s })
        }),
{
}

/// To confirm a batch again changes nothing.
pub proof fn law_confirmation_is_idempotent(s: EngineView, index: int, root: Seq<u8>)
    ensures
        ({
            let event = BridgeEventView::BatchPosted { index, root };
            event_step(event_step(s, event).0, event) == event_step(s, event)
        }),
{
    if has_batch(s, index, root) {
        let t = confirmed(s, index);
        assert(confirmed(t, index).batches =~= t.batches);
    }
}

/// A batch that the rollup does not have, or has with another root, and an event
/// that the bridge does not know, leave the state as it was.
pub proof fn law_strange_events_change_nothing(s: EngineView, event: BridgeEventView)
    requires
        match event {
            BridgeEventView::BatchPosted { index, root } => !has_batch(s, index, root),
            BridgeEventView::Unknown => true,
            _ => false,
        },
    ensures
        event_step(s, event).0 == s,
        event_step(s, event).1 == (if event is Unknown {
            Err::<LogOutcome, BridgeError>(BridgeError::UnknownEvent)
        } else {
            Ok(LogOutcome::OutOfSync)
        }),
{
}

/// No run of logs takes a confirmation back, changes a batch otherwise, or adds
/// or removes one.
pub proof fn law_confirmations_stay(s: EngineView, logs: Seq<Log>)
    ensures
        replayed(s, logs).batches.len() == s.batches.len(),
        forall|i: int|
            0 <= i < s.batches.len() ==> {
                &&& (#[trigger] replayed(s, logs).batches[i]).root == s.batches[i].root
                &&& replayed(s, logs).batches[i].withdrawals == s.batches[i].withdrawals
                &&& s.batches[i].verified ==> replayed(s, logs).batches[i].verified
            },
    decreases logs.len(),
{
    if logs.len() > 0 {
        law_confirmations_stay(s, logs.drop_last());
    }
}

/// What was deposited in a run of logs.
pub open spec fn deposited(logs: Seq<Log>) -> int
    decreases logs.len(),
{
    if logs.len() == 0 {
        0
    } else {
        deposited(logs.drop_last()) + (match event_of(logs.last()) {
            BridgeEventView::Deposit { amount, .. } => amount.value(),
            _ => 0,
        })
    }
}

/// Deposits are credited in full and nothing else is: over any run of logs the
/// sum of all accounts grows by what was deposited, modulo 2 to the 256, and
/// nothing is withdrawn, sequenced or proposed.
pub proof fn law_deposits_add_up(s: EngineView, logs: Seq<Log>)
    requires
        s.balances.dom().finite(),
    ensures
        replayed(s, logs).balances.dom().finite(),
        congruent(
            total(replayed(s, logs).balances, amount_value()),
            total(s.balances, amount_value()) + deposited(logs),
        ),
        replayed(s, logs).nonces == s.nonces,
        replayed(s, logs).withdrawals == s.withdrawals,
        replayed(s, logs).sequenced == s.sequenced,
        replayed(s, logs).state == s.state,
    decreases logs.len(),
{
    if logs.len() > 0 {
        let init = logs.drop_last();
        law_deposits_add_up(s, init);
        let t = replayed(s, init);
        if let BridgeEventView::Deposit { sender, amount, .. } = event_of(logs.last()) {
            let k = lemma_credit_total(t.balances, sender, amount);
            let d = total(t.balances, amount_value()) - (total(s.balances, amount_value())
                + deposited(init));
            assert((d + k * modulus()) % modulus() == 0);
        }
    }
}

/// The block of the deposit that a log tells of, if it does.
pub open spec fn deposit_block(log: Log) -> Option<int> {
    match event_of(log) {
        BridgeEventView::Deposit { block, .. } => Some(block.value()),
        _ => None,
    }
}

/// No deposit is credited twice over a restart: after a run of logs in the order
/// of the chain, logs are asked for from a block behind that of every deposit in
/// the run.
pub proof fn law_deposits_are_not_asked_for_again(s: EngineView, logs: Seq<Log>)
    requires
        forall|i: int, j: int|
            0 <= i < j < logs.len() && deposit_block(#[trigger] logs[i]) is Some && deposit_block(
                #[trigger] logs[j],
            ) is Some ==> deposit_block(logs[i])->0 <= deposit_block(logs[j])->0,
    ensures
        forall|i: int|
            0 <= i < logs.len() && deposit_block(#[trigger] logs[i]) is Some ==> deposit_block(
                logs[i],
            )->0 < next_block(replayed(s, logs).l1_block),
    decreases logs.len(),
{
    if logs.len() > 0 {
        let init = logs.drop_last();
        let n = logs.len() - 1;
        assert forall|i: int, j: int|
            0 <= i < j < init.len() && deposit_block(#[trigger] init[i]) is Some && deposit_block(
                #[trigger] init[j],
            ) is Some implies deposit_block(init[i])->0 <= deposit_block(init[j])->0 by {
            assert(init[i] == logs[i] && init[j] == logs[j]);
        }
        law_deposits_are_not_asked_for_again(s, init);
        assert forall|i: int|
            0 <= i < logs.len() && deposit_block(#[trigger] logs[i]) is Some implies deposit_block(
            logs[i],
        )->0 < next_block(replayed(s, logs).l1_block) by {
            if i < n {
                assert(init[i] == logs[i]);
                if deposit_block(logs[n]) is Some {
                    assert(deposit_block(logs[i])->0 <= deposit_block(logs[n])->0);
                }
            }
        }
    }
}

} // verus!
