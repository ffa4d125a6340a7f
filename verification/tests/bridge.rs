use dao_rollup::address::Address;
use dao_rollup::bridge::{
    deposit_transaction, handle_log, log_filter, next_attempt, read_batch_posted, read_deposit,
    read_log, replay_logs, try_handle_log, BlockBound, BridgeError, BridgeEvent, Log, LogOutcome,
};
use dao_rollup::crypto::Parity;
use dao_rollup::engine::FullRollupState;
use dao_rollup::numbers::U256;
use dao_rollup::rollup::{TransactionData, WithdrawTree};

const SENDER: Address = Address { hi: 0x01020304, lo: 0x05060708090a0b0c0d0e0f1011121314 };

const DEPOSIT_TOPIC: [u8; 32] = [
    0xe1, 0xff, 0xfc, 0xc4, 0x92, 0x3d, 0x04, 0xb5, 0x59, 0xf4, 0xd2, 0x9a, 0x8b, 0xfc, 0x6c, 0xda,
    0x04, 0xeb, 0x5b, 0x0d, 0x3c, 0x46, 0x07, 0x51, 0xc2, 0x40, 0x2c, 0x5c, 0x5c, 0xc9, 0x10, 0x9c,
];

const BATCH_TOPIC: [u8; 32] = [
    0x66, 0x4b, 0x55, 0xfc, 0xbc, 0x66, 0x32, 0xc6, 0x68, 0x11, 0x7c, 0x27, 0xb6, 0xd0, 0x94, 0x84,
    0x70, 0xee, 0x43, 0x3e, 0x87, 0xc4, 0x9d, 0xd6, 0x44, 0x96, 0x71, 0x2f, 0x7d, 0xb0, 0xe9, 0xe0,
];

fn n(value: u64) -> U256 {
    U256::from_u64(value)
}

/// A word that holds a small number.
fn word(value: u8) -> Vec<u8> {
    let mut bytes = vec![0; 32];
    bytes[31] = value;
    bytes
}

/// The data of a deposit by the sender.
fn deposit_data(amount: u8) -> Vec<u8> {
    let mut bytes = vec![0; 12];
    bytes.extend(1..=20u8);
    bytes.extend(word(amount));
    bytes
}

fn deposit(amount: u8, block: u64) -> Log {
    Log {
        topics: vec![DEPOSIT_TOPIC],
        data: deposit_data(amount),
        block_number: Some(n(block)),
    }
}

fn posted(index: u8, root: [u8; 32]) -> Log {
    let mut data = word(index);
    data.extend(root);
    Log { topics: vec![BATCH_TOPIC], data, block_number: None }
}

/// A rollup with two batches, of the roots 1 and 2 throughout.
fn batched() -> FullRollupState {
    let mut state = FullRollupState::default();
    for root in [[1u8; 32], [2u8; 32]] {
        state.batches.push(WithdrawTree { withdrawals: vec![], root, verified: false });
    }
    state
}

#[test]
fn a_deposit_is_read_and_credited() {
    let log = deposit(9, 77);
    match read_log(&log) {
        BridgeEvent::Deposit { sender, amount, block } => {
            assert_eq!((sender, amount, block), (SENDER, n(9), n(77)));
        }
        other => panic!("{:?}", other),
    }
    let mut state = FullRollupState::default();
    assert_eq!(handle_log(&mut state, &log), Ok(LogOutcome::Deposited));
    assert_eq!(state.balances.get(SENDER), Some(&n(9)));
    assert_eq!(state.l1_block, n(77));
    assert_eq!(handle_log(&mut state, &deposit(1, 78)), Ok(LogOutcome::Deposited));
    assert_eq!(state.balances.get(SENDER), Some(&n(10)));
    assert!(state.sequenced.is_empty());
}

#[test]
fn large_amounts_are_read_in_full() {
    let mut data = deposit_data(0);
    for (i, byte) in data[32..].iter_mut().enumerate() {
        *byte = i as u8 + 1;
    }
    match read_deposit(&data, Some(n(1))) {
        BridgeEvent::Deposit { amount, .. } => assert_eq!(
            amount,
            U256 {
                hi: 0x0102030405060708090a0b0c0d0e0f10,
                lo: 0x1112131415161718191a1b1c1d1e1f20,
            }
        ),
        other => panic!("{:?}", other),
    }
}

#[test]
fn malformed_deposits() {
    let malformed = |event: BridgeEvent| matches!(event, BridgeEvent::Malformed);
    assert!(malformed(read_deposit(&deposit_data(1), None)));
    assert!(malformed(read_deposit(&[], Some(n(1)))));
    assert!(malformed(read_deposit(&deposit_data(1)[..63], Some(n(1)))));
    let mut long = deposit_data(1);
    long.push(0);
    assert!(malformed(read_deposit(&long, Some(n(1)))));
    long.extend(vec![0; 31]);
    assert!(malformed(read_deposit(&long, Some(n(1)))));
    // Something before the address.
    let mut wide = deposit_data(1);
    wide[11] = 1;
    assert!(malformed(read_deposit(&wide, Some(n(1)))));
}

#[test]
fn a_batch_is_confirmed_by_its_root() {
    let mut state = batched();
    assert_eq!(handle_log(&mut state, &posted(1, [2; 32])), Ok(LogOutcome::Confirmed));
    assert!(!state.batches[0].verified && state.batches[1].verified);
    // To confirm it again changes nothing.
    assert_eq!(handle_log(&mut state, &posted(1, [2; 32])), Ok(LogOutcome::Confirmed));
    assert!(!state.batches[0].verified && state.batches[1].verified);
    assert_eq!(state.batches.len(), 2);
}

#[test]
fn strange_batches_change_nothing() {
    let mut state = batched();
    assert_eq!(handle_log(&mut state, &posted(1, [1; 32])), Ok(LogOutcome::OutOfSync));
    assert_eq!(handle_log(&mut state, &posted(2, [2; 32])), Ok(LogOutcome::OutOfSync));
    let mut nearly = [2; 32];
    nearly[31] = 3;
    assert_eq!(handle_log(&mut state, &posted(1, nearly)), Ok(LogOutcome::OutOfSync));
    assert!(!state.batches[0].verified && !state.batches[1].verified);
}

#[test]
fn malformed_batches() {
    let malformed = |event: BridgeEvent| matches!(event, BridgeEvent::Malformed);
    assert!(malformed(read_batch_posted(&[0; 32])));
    assert!(malformed(read_batch_posted(&[0; 65])));
    // An index that no machine word holds.
    let mut data = vec![0; 64];
    data[0] = 1;
    assert!(malformed(read_batch_posted(&data)));
    match read_batch_posted(&posted(5, [7; 32]).data) {
        BridgeEvent::BatchPosted { index, root } => assert_eq!((index, root), (5, [7; 32])),
        other => panic!("{:?}", other),
    }
}

#[test]
fn unknown_events_are_refused() {
    let mut state = FullRollupState::default();
    let mut topic = DEPOSIT_TOPIC;
    topic[31] ^= 1;
    let log = Log { topics: vec![topic], data: deposit_data(1), block_number: Some(n(1)) };
    assert_eq!(handle_log(&mut state, &log), Err(BridgeError::UnknownEvent));
    assert_eq!(state.balances.len(), 0);
    assert_eq!(BridgeError::UnknownEvent.message(), "unknown event");
}

#[test]
fn malformed_logs_are_not_taken_into_account() {
    let mut state = FullRollupState::default();
    let bare = Log { topics: vec![], data: vec![], block_number: None };
    assert_eq!(try_handle_log(&mut state, &bare), None);
    let mut short = deposit(1, 1);
    short.data.pop();
    assert_eq!(try_handle_log(&mut state, &short), None);
    assert_eq!(state.balances.len(), 0);
    assert_eq!(try_handle_log(&mut state, &deposit(1, 1)), Some(Ok(LogOutcome::Deposited)));
}

#[test]
fn only_the_first_topic_counts() {
    let mut log = deposit(4, 1);
    log.topics.push(BATCH_TOPIC);
    let mut state = FullRollupState::default();
    assert_eq!(handle_log(&mut state, &log), Ok(LogOutcome::Deposited));
}

#[test]
fn old_logs_are_replayed_in_order() {
    let mut state = batched();
    let strange = Log { topics: vec![[9; 32]], data: vec![], block_number: None };
    let logs = vec![deposit(2, 5), strange, posted(0, [1; 32]), deposit(3, 6)];
    assert_eq!(
        replay_logs(&mut state, &logs),
        vec![
            Ok(LogOutcome::Deposited),
            Err(BridgeError::UnknownEvent),
            Ok(LogOutcome::Confirmed),
            Ok(LogOutcome::Deposited),
        ]
    );
    assert_eq!(state.balances.get(SENDER), Some(&n(5)));
    assert_eq!(state.l1_block, n(6));
    assert!(state.batches[0].verified);
    // None of these deposits will be asked for again.
    assert_eq!(log_filter(state.l1_block).from_block, BlockBound::Number(7));
}

#[test]
fn a_replay_stops_at_a_malformed_log() {
    let mut state = FullRollupState::default();
    let mut short = deposit(2, 6);
    short.data.pop();
    let logs = vec![deposit(1, 5), short, deposit(4, 7)];
    assert_eq!(replay_logs(&mut state, &logs), vec![Ok(LogOutcome::Deposited)]);
    assert_eq!(state.balances.get(SENDER), Some(&n(1)));
}

#[test]
fn logs_are_asked_for_from_the_next_block() {
    let filter = log_filter(n(41));
    assert_eq!(
        filter.address,
        Address { hi: 0x24E063a8, lo: 0x27CB134315aC57A380446c8bF5418555 }
    );
    assert_eq!(filter.from_block, BlockBound::Number(42));
    assert_eq!(filter.to_block, BlockBound::Latest);
    assert_eq!(filter.events, vec!["Deposit(address,uint256)", "BatchPosted(uint256,bytes32)"]);
}

#[test]
fn the_chain_is_asked_again_after_a_failure() {
    assert_eq!(next_attempt(true), Some(5));
    assert_eq!(next_attempt(false), None);
}

#[test]
fn the_transaction_of_a_deposit() {
    let stx = deposit_transaction(SENDER, n(3), n(4));
    assert_eq!(stx.pub_key, SENDER);
    assert_eq!(stx.tx.nonce, U256::zero());
    assert_eq!(
        (stx.sig.r, stx.sig.s, stx.sig.v),
        (
            U256 {
                hi: 0x840cfc572845f5786e702984c2a58252,
                lo: 0x8cad4b49b2a10b9db1be7fca90058565,
            },
            U256 {
                hi: 0x25e7109ceb98168d95b09b18bbf6b685,
                lo: 0x130e0562f233877d492b94eee0c5b6d1,
            },
            Parity::Parity(false),
        )
    );
    match stx.tx.data {
        TransactionData::BridgeTokens { amount, block } => {
            assert_eq!((amount, block), (n(3), n(4)));
        }
        other => panic!("{:?}", other),
    }
}
