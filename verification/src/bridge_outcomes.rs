//! What each log of the chain below comes to, whatever the rollup holds.

use vstd::prelude::*;
use vstd::utf8::encode_utf8;
use crate::address::{address, Address};
use crate::bridge::{
    event_of, event_step, next_block, replayed, BridgeError, BridgeEvent, BridgeEventView, Log,
    LogOutcome,
};
use crate::crypto::keccak;
use crate::engine::EngineView;
use crate::numbers::{be_value, half_modulus, lemma_u256_value, modulus, U256};
use crate::tx_outcomes::{held, lemma_credited, same_but};

verus! {

/// A batch is confirmed wherever the chain posts the root that the rollup has at that
/// index, whatever the batch holds and however many there are. It is marked and stays
/// as it is otherwise, and so does everything else. With any other root, or at an index
/// that the rollup does not have, nothing happens, and the two are out of sync.
pub proof fn law_a_posted_root_confirms_its_batch(s: EngineView, index: int, root: Seq<u8>)
    ensures
        ({
            let (t, r) = event_step(s, BridgeEventView::BatchPosted { index, root });
            let there = 0 <= index && index < s.batches.len();
            &&& there && s.batches[index].root == root ==> {
                &&& r == Ok::<_, BridgeError>(LogOutcome::Confirmed)
                &&& t.batches.len() == s.batches.len()
                &&& t.batches[index].verified
                &&& t.batches[index].root == s.batches[index].root
                &&& t.batches[index].withdrawals == s.batches[index].withdrawals
                &&& forall|i: int|
                    0 <= i < s.batches.len() && i != index ==> #[trigger] t.batches[i]
                        == s.batches[i]
                &&& t == (EngineView { batches: t.batches, ..s })
            }
            &&& !there || s.batches[index].root != root ==> t == s && r == Ok::<_, BridgeError>(
                LogOutcome::OutOfSync,
            )
        }),
{
}

/// A deposit is credited in full to its sender, modulo 2 to the 256, whoever that is
/// and whether they have an account or not. Its block is the last one taken into
/// account. Nothing else changes.
pub proof fn law_a_deposit_reaches_its_sender(
    s: EngineView,
    sender: Address,
    amount: U256,
    block: U256,
)
    ensures
        ({
            let (t, r) = event_step(s, BridgeEventView::Deposit { sender, amount, block });
            &&& r == Ok::<_, BridgeError>(LogOutcome::Deposited)
            &&& t.balances.contains_key(sender)
            &&& held(t.balances, sender) == (held(s.balances, sender) + amount.value())
                % modulus()
            &&& same_but(s.balances, t.balances, sender, sender)
            &&& t.l1_block == block
            &&& t == (EngineView { balances: t.balances, l1_block: block, ..s })
        }),
{
    lemma_credited(s.balances, sender, amount);
}

/// An event that the bridge does not know is refused, and nothing happens.
pub proof fn law_an_unknown_event_is_refused(s: EngineView)
    ensures
        event_step(s, BridgeEventView::Unknown) == (
            s,
            Err::<LogOutcome, BridgeError>(BridgeError::UnknownEvent),
        ),
{
}

/// Two hundred and fifty-six to the power of `n`.
spec fn bytes_bound(n: nat) -> int
    decreases n,
{
    if n == 0 {
        1
    } else {
        256 * bytes_bound((n - 1) as nat)
    }
}

/// Bytes denote a number that fits their length.
proof fn lemma_be_value_bound(bytes: Seq<u8>)
    ensures
        0 <= be_value(bytes) < bytes_bound(bytes.len()),
    decreases bytes.len(),
{
    if bytes.len() > 0 {
        lemma_be_value_bound(bytes.drop_last());
    }
}

/// A log tells of a deposit where its first topic is the digest of the signature of that
/// event, its data are two words, of which the first holds no more than an address, and
/// its block is known. The sender is the number in the last twenty bytes of the first
/// word and the amount the number in the second. It does so for no other data.
pub proof fn law_deposits_are_read(log: Log)
    requires
        log.topics@.len() > 0,
        log.topics@[0]@ == keccak(encode_utf8("Deposit(address,uint256)"@)),
    ensures
        ({
            let whole = log.data@.len() == 64 && (forall|i: int|
                0 <= i < 12 ==> #[trigger] log.data@[i] == 0) && log.block_number is Some;
            &&& whole ==> {
                &&& event_of(log) matches BridgeEventView::Deposit { sender, amount, block }
                &&& sender.value() == be_value(log.data@.subrange(12, 32))
                &&& amount.value() == be_value(log.data@.subrange(32, 64))
                &&& log.block_number == Some(block)
            }
            &&& !whole ==> event_of(log) is Malformed
        }),
{
    let a = log.data@.subrange(12, 32);
    let n = log.data@.subrange(32, 64);
    if log.data@.len() == 64 {
        lemma_be_value_bound(a);
        lemma_be_value_bound(n);
        assert(bytes_bound(20) == 0x1_0000_0000 * half_modulus()) by {
            reveal_with_fuel(bytes_bound, 21);
        }
        assert(bytes_bound(32) == modulus()) by {
            reveal_with_fuel(bytes_bound, 33);
        }
        lemma_u256_value(be_value(n));
        assert(address(be_value(a)).value() == be_value(a)) by {
            reveal(address);
        }
    }
}

/// A log tells of a posted batch where its first topic is the digest of the signature of
/// that event, and its data are two words, of which the first is a number that fits a
/// machine word, the index, and the second the root. It does so for no other data.
pub proof fn law_posted_batches_are_read(log: Log)
    requires
        log.topics@.len() > 0,
        log.topics@[0]@ == keccak(encode_utf8("BatchPosted(uint256,bytes32)"@)),
        log.topics@[0]@ != keccak(encode_utf8("Deposit(address,uint256)"@)),
    ensures
        ({
            let whole = log.data@.len() == 64 && be_value(log.data@.subrange(0, 32))
                <= usize::MAX;
            &&& whole ==> {
                &&& event_of(log) matches BridgeEventView::BatchPosted { index, root }
                &&& index == be_value(log.data@.subrange(0, 32))
                &&& root == log.data@.subrange(32, 64)
            }
            &&& !whole ==> event_of(log) is Malformed
        }),
{
    let n = log.data@.subrange(0, 32);
    if log.data@.len() == 64 {
        lemma_be_value_bound(n);
        assert(bytes_bound(32) == modulus()) by {
            reveal_with_fuel(bytes_bound, 33);
        }
        lemma_u256_value(be_value(n));
    }
}

/// A log of neither event is unknown, whatever it holds, and one without topics is
/// malformed. Nothing but the first topic, the data and the block counts.
pub proof fn law_other_logs_are_unknown(log: Log, other: Log)
    ensures
        log.topics@.len() == 0 ==> event_of(log) is Malformed,
        log.topics@.len() > 0 && log.topics@[0]@ != keccak(
            encode_utf8("Deposit(address,uint256)"@),
        ) && log.topics@[0]@ != keccak(encode_utf8("BatchPosted(uint256,bytes32)"@)) ==> event_of(
            log,
        ) is Unknown,
        log.topics@.len() > 0 && other.topics@.len() > 0 && log.topics@[0]@ == other.topics@[0]@
            && log.data@ == other.data@ && log.block_number == other.block_number ==> event_of(log)
            == event_of(other),
{
}

/// Logs are taken into account one after the other: a run of them does what its first
/// part does and then its second, and a single log does what its event does.
pub proof fn law_logs_are_taken_in_order(
    s: EngineView,
    first: Seq<Log>,
    second: Seq<Log>,
    log: Log,
)
    ensures
        replayed(s, first + second) == replayed(replayed(s, first), second),
        replayed(s, seq![log]) == event_step(s, event_of(log)).0,
    decreases second.len(),
{
    reveal_with_fuel(replayed, 2);
    assert(seq![log].drop_last() =~= Seq::empty());
    if second.len() == 0 {
        assert(first + second =~= first);
    } else {
        law_logs_are_taken_in_order(s, first, second.drop_last(), log);
        assert((first + second).drop_last() =~= first + second.drop_last());
    }
}

/// No block is left out: logs are asked for from every block behind the last one that
/// was taken into account, and from no other.
pub proof fn law_no_block_is_left_out(l1_block: U256, block: int)
    ensures
        block >= next_block(l1_block) <==> block > l1_block.value(),
{
}

/// What is said of an event is said of all that it tells.
pub proof fn law_nothing_of_an_event_is_left_out(event: BridgeEvent)
    ensures
        event matches BridgeEvent::Deposit { sender, amount, block } ==> event@ == (
        BridgeEventView::Deposit { sender, amount, block }),
        event matches BridgeEvent::BatchPosted { index, root } ==> event@ == (
        BridgeEventView::BatchPosted { index: index as int, root: root@ }),
        event is Unknown <==> event@ is Unknown,
        event is Malformed <==> event@ is Malformed,
{
}

} // verus!
