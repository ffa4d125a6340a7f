use dao_rollup::address::Address;
use dao_rollup::bridge::{BridgeError, Log, LogOutcome};
use dao_rollup::crypto::{Parity, Signature};
use dao_rollup::engine::{DaoTransaction, EngineError, FullRollupState};
use dao_rollup::http::{HttpBody, HttpReply};
use dao_rollup::numbers::U256;
use dao_rollup::rollup::{Posted, SignedTransaction, Transaction, TransactionData};
use dao_rollup::sequencer::{
    route_message, AdminActions, AdminStep, EthMessage, HttpOutcome, HttpServerRequest, PushBlob,
    ReadRequest, RemoteMessage, RemoteReply, Route, Sequencer, SequencerError,
};

const ALICE: Address = Address { hi: 0xe05fcc23, lo: 0x807536bee418f142d19fa0d21bb0cff7 };

fn n(value: u64) -> U256 {
    U256::from_u64(value)
}

/// A withdrawal of Alice's, with the message "alice", which she has signed.
fn withdrawal(nonce: u64, amount: u64) -> Posted<DaoTransaction> {
    let sig = Signature {
        r: U256 {
            hi: 0xcfdffae24cf8eb9be0f8ca5cf7f0a950,
            lo: 0x19b94095eedc33332a4b048c42e2a056,
        },
        s: U256 {
            hi: 0x6988f6f7ff4bef1efe786ac4d6218a12,
            lo: 0xc677108583ffc21fa27e3618bc0aa6c2,
        },
        v: Parity::Parity(true),
    };
    let data = TransactionData::WithdrawTokens(n(amount));
    let tx = Transaction { nonce: n(nonce), data };
    let stx = SignedTransaction { pub_key: ALICE, sig, tx };
    Posted { stx, message: b"alice".to_vec() }
}

/// A sequencer over a rollup in which Alice holds 10.
fn sequencer() -> Sequencer {
    let mut rollup = FullRollupState::default();
    rollup.balances.insert(ALICE, n(10));
    Sequencer::new(rollup, vec!["router.os".to_string()])
}

fn write(
    s: &mut Sequencer,
    posted: Posted<DaoTransaction>,
) -> Option<Result<RemoteReply, SequencerError>> {
    s.handle_remote(RemoteMessage::Write(Some(posted)), "node.os".to_string())
}

#[test]
fn a_new_sequencer() {
    let s = sequencer();
    assert!(s.sequenced.is_empty());
    assert_eq!(s.connection, None);
    assert_eq!(s.routers, vec!["router.os".to_string()]);
}

#[test]
fn who_handles_a_message() {
    let http = "http_server:distro:sys";
    let eth = "eth:distro:sys";
    assert_eq!(route_message(false, "me", "me", http), Route::Ignored);
    assert_eq!(route_message(false, "you", "me", eth), Route::Ignored);
    assert_eq!(route_message(true, "you", "me", http), Route::Remote);
    assert_eq!(route_message(true, "you", "me", "admin:dao:me"), Route::Remote);
    assert_eq!(route_message(true, "me", "me", http), Route::Http);
    assert_eq!(route_message(true, "me", "me", eth), Route::Eth);
    assert_eq!(route_message(true, "me", "me", "admin:dao:me"), Route::Admin);
}

#[test]
fn a_message_from_another_node_needs_a_blob() {
    let mut s = sequencer();
    assert_eq!(
        s.handle_remote(RemoteMessage::NoBlob, "node.os".to_string()),
        Some(Err(SequencerError::NoRequestBlob))
    );
    assert_eq!(
        s.handle_remote(RemoteMessage::Write(None), "node.os".to_string()),
        Some(Ok(RemoteReply::BadRequest))
    );
}

#[test]
fn only_routers_are_read() {
    let mut s = sequencer();
    let mut read = |request: ReadRequest| {
        s.handle_remote(RemoteMessage::Read(request), "node.os".to_string())
    };
    assert_eq!(read(ReadRequest::Routers), Some(Ok(RemoteReply::Routers)));
    assert_eq!(read(ReadRequest::All), None);
    assert_eq!(read(ReadRequest::Dao), None);
    assert_eq!(read(ReadRequest::Members), None);
    assert_eq!(read(ReadRequest::Proposals), None);
    assert_eq!(read(ReadRequest::Parameters), None);
}

#[test]
fn what_is_carried_out_is_to_be_proved() {
    let mut s = sequencer();
    assert_eq!(write(&mut s, withdrawal(0, 3)), Some(Ok(RemoteReply::Written)));
    assert_eq!(
        write(&mut s, withdrawal(0, 3)),
        Some(Err(SequencerError::Engine(EngineError::BadNonce)))
    );
    assert_eq!(
        s.answer_http("POST", Some(withdrawal(1, 2))),
        Some(Ok(HttpReply { status: 200, body: HttpBody::Receipt }))
    );
    let nodes: Vec<Option<String>> = s.sequenced.iter().map(|e| e.1.clone()).collect();
    assert_eq!(nodes, vec![Some("node.os".to_string()), None]);
    assert_eq!(s.sequenced[0].0.tx.nonce, n(0));
    assert_eq!(s.sequenced[1].0.tx.nonce, n(1));
    assert_eq!(s.rollup.balances.get(ALICE), Some(&n(5)));
    assert_eq!(s.write(withdrawal(2, 9), None), Some(Err(EngineError::InsufficientFunds)));
    assert_eq!(s.sequenced.len(), 2);
}

#[test]
fn what_cannot_be_answered_is_not_sequenced() {
    let mut s = Sequencer::new(FullRollupState::default(), vec![]);
    assert_eq!(write(&mut s, withdrawal(0, 3)), None);
    assert_eq!(s.answer_http("POST", Some(withdrawal(0, 3))), None);
    assert!(s.sequenced.is_empty());
    assert_eq!(s.rollup.nonces.len(), 0);
}

#[test]
fn requests_of_the_own_frontend() {
    let mut s = sequencer();
    let reply = |status: u16, body: HttpBody| Some(Ok(HttpReply { status, body }));
    assert_eq!(s.answer_http("GET", None), reply(200, HttpBody::Routers));
    assert_eq!(s.answer_http("POST", None), reply(400, HttpBody::Empty));
    assert_eq!(s.answer_http("PATCH", None), reply(405, HttpBody::Empty));
    assert_eq!(
        s.answer_http("POST", Some(withdrawal(7, 1))),
        Some(Err(SequencerError::Engine(EngineError::BadNonce)))
    );
}

#[test]
fn messages_of_the_provider() {
    let mut s = sequencer();
    assert_eq!(s.handle_eth(EthMessage::Invalid), Some(Err(SequencerError::InvalidMessage)));
    assert_eq!(s.handle_eth(EthMessage::NotALog), None);
    let log = |topic: [u8; 32], data: Vec<u8>| {
        EthMessage::Log(Log { topics: vec![topic], data, block_number: Some(n(6)) })
    };
    assert_eq!(
        s.handle_eth(log([0; 32], vec![])),
        Some(Err(SequencerError::Bridge(BridgeError::UnknownEvent)))
    );
    let deposit_topic = [
        0xe1, 0xff, 0xfc, 0xc4, 0x92, 0x3d, 0x04, 0xb5, 0x59, 0xf4, 0xd2, 0x9a, 0x8b, 0xfc, 0x6c,
        0xda, 0x04, 0xeb, 0x5b, 0x0d, 0x3c, 0x46, 0x07, 0x51, 0xc2, 0x40, 0x2c, 0x5c, 0x5c, 0xc9,
        0x10, 0x9c,
    ];
    assert_eq!(s.handle_eth(log(deposit_topic, vec![0; 63])), None);
    assert_eq!(
        s.handle_eth(log(deposit_topic, vec![0; 64])),
        Some(Ok(LogOutcome::Deposited))
    );
    assert_eq!(s.rollup.l1_block, n(6));
}

#[test]
fn one_prover_at_a_time() {
    let mut s = sequencer();
    assert_eq!(s.start_proof(), Err(SequencerError::NoConnection));
    s.websocket_open(7);
    assert_eq!(s.start_proof(), Ok(7));
    assert_eq!(s.websocket_close(8), Err(SequencerError::WrongCloseChannel));
    assert_eq!(s.connection, Some(7));
    s.websocket_open(8);
    assert_eq!(s.start_proof(), Ok(8));
    assert_eq!(s.websocket_close(8), Ok(()));
    assert_eq!(s.start_proof(), Err(SequencerError::NoConnection));
    // Without a prover, channel 0 is the one that is expected.
    assert_eq!(s.websocket_close(1), Err(SequencerError::WrongCloseChannel));
    assert_eq!(s.websocket_close(0), Ok(()));
}

#[test]
fn what_the_prover_pushes() {
    let mut s = sequencer();
    s.websocket_open(7);
    let data = || PushBlob::Data(vec![1, 2, 3]);
    assert_eq!(s.websocket_push(6, true, data()), Err(SequencerError::WrongChannel));
    assert_eq!(s.websocket_push(7, false, data()), Err(SequencerError::NotBinary));
    assert_eq!(s.websocket_push(7, true, PushBlob::Missing), Err(SequencerError::NoPushBlob));
    assert_eq!(s.websocket_push(7, true, PushBlob::Other), Err(SequencerError::NotPushData));
    assert_eq!(s.websocket_push(7, true, data()), Ok(vec![1, 2, 3]));
}

#[test]
fn transactions_are_handed_over_once() {
    let mut s = sequencer();
    assert_eq!(write(&mut s, withdrawal(0, 3)), Some(Ok(RemoteReply::Written)));
    s.proof_started();
    assert!(s.sequenced.is_empty());
    assert_eq!(write(&mut s, withdrawal(1, 3)), Some(Ok(RemoteReply::Written)));
    assert_eq!(s.sequenced.len(), 1);
    assert_eq!(s.sequenced[0].0.tx.nonce, n(1));
    // The rollup keeps them all; what is to be proved is what it has sequenced last.
    assert_eq!(s.rollup.sequenced.len(), 2);
    assert_eq!(s.rollup.sequenced[1].tx.nonce, n(1));
}

#[test]
fn withdrawals_are_batched() {
    let mut s = sequencer();
    assert_eq!(write(&mut s, withdrawal(0, 3)), Some(Ok(RemoteReply::Written)));
    assert_eq!(write(&mut s, withdrawal(1, 4)), Some(Ok(RemoteReply::Written)));
    assert_eq!(s.batch_withdrawals([5; 32]), 1);
    assert_eq!(s.rollup.withdrawals.len(), 2);
    s.batch_stored();
    assert!(s.rollup.withdrawals.is_empty());
    let batch = &s.rollup.batches[0];
    assert_eq!(batch.withdrawals, vec![(ALICE, n(3)), (ALICE, n(4))]);
    assert_eq!((batch.root, batch.verified), ([5; 32], false));
    assert_eq!(s.batch_withdrawals([6; 32]), 2);
    s.batch_stored();
    assert!(s.rollup.batches[1].withdrawals.is_empty());
    assert_eq!(s.rollup.balances.get(ALICE), Some(&n(3)));
}

#[test]
fn value_is_accounted_for_through_batches() {
    let sum = |s: &Sequencer| {
        let held: u128 = s.rollup.balances.entries().iter().map(|e| e.1.lo).sum();
        let waiting: u128 = s.rollup.withdrawals.iter().map(|w| w.1.lo).sum();
        let batches = s.rollup.batches.iter();
        let batched: u128 = batches.flat_map(|b| b.withdrawals.iter()).map(|w| w.1.lo).sum();
        held + waiting + batched
    };
    let mut s = sequencer();
    assert_eq!(write(&mut s, withdrawal(0, 3)), Some(Ok(RemoteReply::Written)));
    let _ = s.batch_withdrawals([5; 32]);
    s.batch_stored();
    assert_eq!(write(&mut s, withdrawal(1, 2)), Some(Ok(RemoteReply::Written)));
    assert_eq!(sum(&s), 10);
    let mut deposit = withdrawal(0, 0);
    deposit.stx.tx.data = TransactionData::BridgeTokens { amount: n(4), block: n(1) };
    assert_eq!(write(&mut s, deposit), Some(Ok(RemoteReply::Written)));
    let _ = s.batch_withdrawals([6; 32]);
    s.batch_stored();
    assert_eq!(sum(&s), 14);
}

#[test]
fn messages_of_the_http_server() {
    let mut s = sequencer();
    let get = HttpServerRequest::Http { method: "GET".to_string(), posted: None };
    assert!(matches!(
        s.handle_http_request(get),
        Some(Ok(HttpOutcome::Reply(HttpReply { status: 200, body: HttpBody::Routers })))
    ));
    let post = |nonce: u64| HttpServerRequest::Http {
        method: "POST".to_string(),
        posted: Some(withdrawal(nonce, 1)),
    };
    assert!(matches!(
        s.handle_http_request(post(0)),
        Some(Ok(HttpOutcome::Reply(HttpReply { status: 200, body: HttpBody::Receipt })))
    ));
    assert!(matches!(
        s.handle_http_request(post(0)),
        Some(Err(SequencerError::Engine(EngineError::BadNonce)))
    ));
    let open = HttpServerRequest::WebSocketOpen { channel: 3 };
    assert!(matches!(s.handle_http_request(open), Some(Ok(HttpOutcome::Nothing))));
    assert_eq!(s.connection, Some(3));
    let push = |channel: u32| HttpServerRequest::WebSocketPush {
        channel,
        is_binary: true,
        blob: PushBlob::Data(vec![9]),
    };
    assert!(matches!(
        s.handle_http_request(push(3)),
        Some(Ok(HttpOutcome::Proof(bytes))) if bytes == vec![9]
    ));
    assert!(matches!(
        s.handle_http_request(push(4)),
        Some(Err(SequencerError::WrongChannel))
    ));
    let close = |channel: u32| HttpServerRequest::WebSocketClose { channel };
    assert!(matches!(
        s.handle_http_request(close(4)),
        Some(Err(SequencerError::WrongCloseChannel))
    ));
    assert!(matches!(s.handle_http_request(close(3)), Some(Ok(HttpOutcome::Nothing))));
    assert_eq!(s.connection, None);
}

#[test]
fn orders_on_the_own_node() {
    let mut s = sequencer();
    assert_eq!(
        s.handle_admin_message(AdminActions::Prove),
        Err(SequencerError::NoConnection)
    );
    s.websocket_open(3);
    assert_eq!(write(&mut s, withdrawal(0, 3)), Some(Ok(RemoteReply::Written)));
    assert_eq!(
        s.handle_admin_message(AdminActions::Prove),
        Ok(AdminStep::SendToProver { channel: 3 })
    );
    // They are kept until they have been sent.
    assert_eq!(s.sequenced.len(), 1);
    let batch = AdminActions::BatchWithdrawals { root: [4; 32] };
    assert_eq!(s.handle_admin_message(batch), Ok(AdminStep::StoreBatch { number: 1 }));
    assert_eq!(s.rollup.batches[0].withdrawals, vec![(ALICE, n(3))]);
    assert_eq!(s.rollup.batches[0].root, [4; 32]);
}

#[test]
fn sequencer_refusals_in_words() {
    let words = [
        (
            SequencerError::NoRequestBlob,
            "got Request without blob: expected Read or Write() in blob",
        ),
        (SequencerError::InvalidMessage, "sequencer: got invalid message"),
        (SequencerError::WrongCloseChannel, "WebSocketClose wrong channel_id"),
        (SequencerError::WrongChannel, "wrong channel_id"),
        (SequencerError::NotBinary, "expected binary message"),
        (SequencerError::NoPushBlob, "WebSocketPush Binary had no blob"),
        (SequencerError::NotPushData, "expected WebSocketExtPushData"),
        (SequencerError::NoConnection, "no connection"),
        (SequencerError::Engine(EngineError::BadSig), "bad sig"),
        (SequencerError::Bridge(BridgeError::UnknownEvent), "unknown event"),
    ];
    for (reason, text) in words {
        assert_eq!(reason.message(), text);
    }
}
