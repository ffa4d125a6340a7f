//! The bridge: deposits made on the chain below, and batches of withdrawals that
//! the chain has confirmed, both read from its event logs.

use vstd::prelude::*;
use vstd::string::*;
use vstd::utf8::encode_utf8;
use crate::abi;
use crate::address::Address;
use crate::crypto;
use crate::engine::{bridged, DaoState, DaoTransaction, EngineView, FullRollupState};
use crate::numbers::U256;
use crate::rollup::{
    BaseRollupState, SignedTransaction, Transaction, TransactionData, WithdrawTreeView,
};
use crate::text::same_digest;

verus! {

/// The address of the bridge's contract on the chain below.
pub open spec fn bridge_address() -> Address {
    Address { hi: 0x24E063a8, lo: 0x27CB134315aC57A380446c8bF5418555 }
}

/// The signature of the event of a deposit: the sender and the amount.
pub open spec fn deposit_signature() -> Seq<char> {
    "Deposit(address,uint256)"@
}

/// The signature of the event of a confirmed batch: its index and its root.
pub open spec fn batch_posted_signature() -> Seq<char> {
    "BatchPosted(uint256,bytes32)"@
}

/// The first topic of the logs of an event: the digest of its signature.
pub open spec fn event_topic(signature: Seq<char>) -> Seq<u8> {
    crypto::keccak(encode_utf8(signature))
}

/// A block of the chain below.
#[derive(Clone, Copy, Debug, PartialEq, Eq, Structural)]
pub enum BlockBound {
    Number(u64),
    /// The last one there is.
    Latest,
}

/// Which logs the rollup asks the chain for.
#[derive(Debug)]
pub struct LogFilter {
    pub address: Address,
    pub from_block: BlockBound,
    pub to_block: BlockBound,
    /// The signatures of the events.
    pub events: Vec<&'static str>,
}

/// The block from which logs are asked for: the one after the last that was
/// taken into account.
pub open spec fn next_block(l1_block: U256) -> int {
    l1_block.value() + 1
}

/// The logs that come after the last block that was taken into account, up to the
/// latest.
pub fn log_filter(l1_block: U256) -> (r: LogFilter)
    requires
        l1_block.value() < u64::MAX,
    ensures
        r.address == bridge_address(),
        r.from_block == BlockBound::Number(next_block(l1_block) as u64),
        r.to_block == BlockBound::Latest,
        r.events@.len() == 2,
        r.events@[0]@ == deposit_signature(),
        r.events@[1]@ == batch_posted_signature(),
{
    let block: u64 = match l1_block.to_u64() {
        Some(b) => b,
        None => 0,
    };
    let mut events: Vec<&'static str> = Vec::new();
    events.push("Deposit(address,uint256)");
    events.push("BatchPosted(uint256,bytes32)");
    let address = Address { hi: 0x24E063a8, lo: 0x27CB134315aC57A380446c8bF5418555 };
    LogFilter {
        address,
        from_block: BlockBound::Number(block + 1),
        to_block: BlockBound::Latest,
        events,
    }
}

/// How many seconds to wait before the chain is asked again, where asking it has
/// failed; otherwise it is not asked again.
pub fn next_attempt(failed: bool) -> (r: Option<u64>)
    ensures
        r == (if failed {
            Some(5u64)
        } else {
            None
        }),
{
    if failed {
        Some(5)
    } else {
        None
    }
}

/// An event log of the chain below.
#[derive(Debug)]
pub struct Log {
    pub topics: Vec<[u8; 32]>,
    pub data: Vec<u8>,
    pub block_number: Option<U256>,
}

/// What a log says.
#[derive(Clone, Copy, Debug)]
pub enum BridgeEvent {
    /// An amount was deposited, in some block.
    Deposit { sender: Address, amount: U256, block: U256 },
    /// The batch at an index was posted with a root.
    BatchPosted { index: usize, root: [u8; 32] },
    /// Something that the bridge does not know of.
    Unknown,
    /// An event of the bridge whose log is malformed, or a log without topics.
    Malformed,
}

/// The contents of a [`BridgeEvent`].
pub enum BridgeEventView {
    Deposit { sender: Address, amount: U256, block: U256 },
    BatchPosted { index: int, root: Seq<u8> },
    Unknown,
    Malformed,
}

impl View for BridgeEvent {
    type V = BridgeEventView;

    open spec fn view(&self) -> BridgeEventView {
        match *self {
            BridgeEvent::Deposit { sender, amount, block } => BridgeEventView::Deposit {
                sender,
                amount,
                block,
            },
            BridgeEvent::BatchPosted { index, root } => BridgeEventView::BatchPosted {
                index: index as int,
                root: root@,
            },
            BridgeEvent::Unknown => BridgeEventView::Unknown,
            BridgeEvent::Malformed => BridgeEventView::Malformed,
        }
    }
}

/// The deposit that the data and the block of a log tell of.
pub open spec fn deposit_event(data: Seq<u8>, block_number: Option<U256>) -> BridgeEventView {
    match (abi::deposit_data(data), block_number) {
        (Some((sender, amount)), Some(block)) => BridgeEventView::Deposit {
            sender,
            amount,
            block,
        },
        _ => BridgeEventView::Malformed,
    }
}

/// The posted batch that the data of a log tell of. Its index has to fit a
/// machine word.
pub open spec fn batch_posted_event(data: Seq<u8>) -> BridgeEventView {
    match abi::batch_data(data) {
        Some((index, root)) => if index.value() <= usize::MAX {
            BridgeEventView::BatchPosted { index: index.value(), root }
        } else {
            BridgeEventView::Malformed
        },
        None => BridgeEventView::Malformed,
    }
}

/// What a log says: its first topic tells the event, its data the rest.
pub open spec fn event_of(log: Log) -> BridgeEventView {
    if log.topics@.len() == 0 {
        BridgeEventView::Malformed
    } else if log.topics@[0]@ == event_topic(deposit_signature()) {
        deposit_event(log.data@, log.block_number)
    } else if log.topics@[0]@ == event_topic(batch_posted_signature()) {
        batch_posted_event(log.data@)
    } else {
        BridgeEventView::Unknown
    }
}

/// Reads a deposit.
pub fn read_deposit(data: &[u8], block_number: Option<U256>) -> (r: BridgeEvent)
    ensures
        r@ == deposit_event(data@, block_number),
{
    match (abi::decode_deposit(data), block_number) {
        (Some((sender, amount)), Some(block)) => BridgeEvent::Deposit { sender, amount, block },
        _ => BridgeEvent::Malformed,
    }
}

/// Reads a posted batch.
pub fn read_batch_posted(data: &[u8]) -> (r: BridgeEvent)
    ensures
        r@ == batch_posted_event(data@),
{
    match abi::decode_batch_posted(data) {
        Some((index, root)) => match index.to_usize() {
            Some(index) => BridgeEvent::BatchPosted { index, root },
            None => BridgeEvent::Malformed,
        },
        None => BridgeEvent::Malformed,
    }
}

/// Reads a log.
pub fn read_log(log: &Log) -> (r: BridgeEvent)
    ensures
        r@ == event_of(*log),
{
    if log.topics.len() == 0 {
        return BridgeEvent::Malformed;
    }
    let topic = log.topics[0];
    if same_digest(&topic, &crypto::keccak256("Deposit(address,uint256)".as_bytes())) {
        read_deposit(log.data.as_slice(), log.block_number)
    } else if same_digest(&topic, &crypto::keccak256("BatchPosted(uint256,bytes32)".as_bytes())) {
        read_batch_posted(log.data.as_slice())
    } else {
        BridgeEvent::Unknown
    }
}

/// What came of an event.
#[derive(Clone, Copy, Debug, PartialEq, Eq, Structural)]
pub enum LogOutcome {
    /// An account was credited.
    Deposited,
    /// A batch is confirmed.
    Confirmed,
    /// The chain has a batch that the rollup does not have: the two are out of
    /// sync.
    OutOfSync,
}

/// Why a log is refused.
#[derive(Clone, Copy, Debug, PartialEq, Eq, Structural)]
pub enum BridgeError {
    UnknownEvent,
}

impl BridgeError {
    /// The reason in words.
    pub fn message(self) -> (r: &'static str)
        ensures
            r@ == "unknown event"@,
    {
        "unknown event"
    }
}

/// Whether the rollup has the batch that was posted.
pub open spec fn has_batch(s: EngineView, index: int, root: Seq<u8>) -> bool {
    0 <= index < s.batches.len() && s.batches[index].root == root
}

/// What the confirmation of a batch does.
pub open spec fn confirmed(s: EngineView, index: int) -> EngineView {
    EngineView {
        batches: s.batches.update(
            index,
            WithdrawTreeView { verified: true, ..s.batches[index] },
        ),
        ..s
    }
}

/// The state after an event that is not malformed, and what came of it.
pub open spec fn event_step(s: EngineView, event: BridgeEventView) -> (
    EngineView,
    Result<LogOutcome, BridgeError>,
) {
    match event {
        BridgeEventView::Deposit { sender, amount, block } => (
            bridged(s, sender, amount, block),
            Ok(LogOutcome::Deposited),
        ),
        BridgeEventView::BatchPosted { index, root } => if has_batch(s, index, root) {
            (confirmed(s, index), Ok(LogOutcome::Confirmed))
        } else {
            (s, Ok(LogOutcome::OutOfSync))
        },
        _ => (s, Err(BridgeError::UnknownEvent)),
    }
}

/// The transaction by which a deposit enters the rollup. It is not signed, and
/// its nonce is not looked at.
pub fn deposit_transaction(sender: Address, amount: U256, block: U256) -> (r: SignedTransaction<
    DaoTransaction,
>)
    ensures
        r.pub_key == sender,
        r.sig.r == (U256 {
            hi: 0x840c_fc57_2845_f578_6e70_2984_c2a5_8252,
            lo: 0x8cad_4b49_b2a1_0b9d_b1be_7fca_9005_8565,
        }),
        r.sig.s == (U256 {
            hi: 0x25e7_109c_eb98_168d_95b0_9b18_bbf6_b685,
            lo: 0x130e_0562_f233_877d_492b_94ee_e0c5_b6d1,
        }),
        r.sig.v == crypto::Parity::Parity(false),
        r.tx.nonce.value() == 0,
        r.tx.data == (TransactionData::<DaoTransaction>::BridgeTokens { amount, block }),
{
    SignedTransaction {
        pub_key: sender,
        sig: crypto::test_signature(),
        tx: Transaction {
            nonce: U256::zero(),
            data: TransactionData::BridgeTokens { amount, block },
        },
    }
}

impl BaseRollupState<DaoState, DaoTransaction> {
    /// Marks a batch as confirmed where the rollup has it, and tells whether it
    /// does.
    fn confirm_batch(&mut self, index: usize, root: [u8; 32]) -> (r: bool)
        ensures
            r == has_batch(old(self)@, index as int, root@),
            final(self)@ == (if r {
                confirmed(old(self)@, index as int)
            } else {
                old(self)@
            }),
    {
        if index < self.batches.len() && same_digest(&self.batches[index].root, &root) {
            self.batches[index].verified = true;
            proof {
                assert(self@.batches =~= confirmed(old(self)@, index as int).batches);
            }
            true
        } else {
            false
        }
    }

    /// Takes an event of the bridge into account.
    pub fn handle_event(&mut self, event: BridgeEvent) -> (r: Result<LogOutcome, BridgeError>)
        requires
            !(event@ is Malformed),
        ensures
            (final(self)@, r) == event_step(old(self)@, event@),
    {
        match event {
            BridgeEvent::Deposit { sender, amount, block } => {
                let stx = deposit_transaction(sender, amount, block);
                let _ = self.execute_signed(stx, None);
                Ok(LogOutcome::Deposited)
            },
            BridgeEvent::BatchPosted { index, root } => {
                if self.confirm_batch(index, root) {
                    Ok(LogOutcome::Confirmed)
                } else {
                    Ok(LogOutcome::OutOfSync)
                }
            },
            _ => Err(BridgeError::UnknownEvent),
        }
    }
}

/// Takes a log of the chain below into account.
pub fn handle_log(state: &mut FullRollupState, log: &Log) -> (r: Result<LogOutcome, BridgeError>)
    requires
        !(event_of(*log) is Malformed),
    ensures
        (final(state)@, r) == event_step(old(state)@, event_of(*log)),
{
    state.handle_event(read_log(log))
}

/// Takes a log into account unless it is malformed, in which case the result is
/// `None` and the state stays as it was.
pub fn try_handle_log(state: &mut FullRollupState, log: &Log) -> (r: Option<
    Result<LogOutcome, BridgeError>,
>)
    ensures
        if event_of(*log) is Malformed {
            r is None && final(state)@ == old(state)@
        } else {
            r is Some && (final(state)@, r->0) == event_step(old(state)@, event_of(*log))
        },
{
    match read_log(log) {
        BridgeEvent::Malformed => None,
        _ => Some(handle_log(state, log)),
    }
}

/// The state after a run of logs.
pub open spec fn replayed(s: EngineView, logs: Seq<Log>) -> EngineView
    decreases logs.len(),
{
    if logs.len() == 0 {
        s
    } else {
        event_step(replayed(s, logs.drop_last()), event_of(logs.last())).0
    }
}

/// Takes a list of logs into account, in order, up to the first one that is
/// malformed. A log that is refused does not stop the rest. The results are
/// those of the logs that were looked at.
pub fn replay_logs(state: &mut FullRollupState, logs: &Vec<Log>) -> (r: Vec<
    Result<LogOutcome, BridgeError>,
>)
    ensures
        r@.len() <= logs@.len(),
        r@.len() < logs@.len() ==> event_of(logs@[r@.len() as int]) is Malformed,
        forall|i: int|
            0 <= i < r@.len() ==> !(event_of(#[trigger] logs@[i]) is Malformed) && r@[i]
                == event_step(replayed(old(state)@, logs@.take(i)), event_of(logs@[i])).1,
        final(state)@ == replayed(old(state)@, logs@.take(r@.len() as int)),
{
    let mut results: Vec<Result<LogOutcome, BridgeError>> = Vec::new();
    let ghost start = state@;
    proof {
        assert(logs@.take(0) =~= Seq::<Log>::empty());
    }
    while results.len() < logs.len()
        invariant
            results@.len() <= logs@.len(),
            start == old(state)@,
            state@ == replayed(start, logs@.take(results@.len() as int)),
            forall|i: int|
                0 <= i < results@.len() ==> !(event_of(#[trigger] logs@[i]) is Malformed)
                    && results@[i] == event_step(
                    replayed(start, logs@.take(i)),
                    event_of(logs@[i]),
                ).1,
        decreases logs@.len() - results@.len(),
    {
        let ghost n = results@.len() as int;
        proof {
            assert(logs@.take(n + 1).drop_last() =~= logs@.take(n));
        }
        match try_handle_log(state, &logs[results.len()]) {
            Some(result) => {
                results.push(result);
            },
            None => {
                return results;
            },
        }
    }
    results
}

} // verus!
