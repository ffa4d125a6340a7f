//! What each message to the sequencer comes to, whoever sends it and whatever the
//! sequencer holds.

use vstd::prelude::*;
use crate::bridge::{event_of, event_step, LogOutcome};
use crate::engine::{posted_step, DaoTransaction, EngineError, EngineView};
use crate::http::{HttpBody, HttpReply};
use crate::rollup::Posted;
use crate::sequencer::{
    admin_state, batch_kept, close_step, eth_step, handed_over, http_server_step, http_step,
    opened, proof_channel, push_refusal, remote_step, route_of, write_step, AdminActions,
    EthMessage, HttpOutcome, HttpServerRequest, PushBlob, ReadRequest, RemoteMessage, RemoteReply,
    Route, Sequencer, SequencerError, SequencerView,
};

verus! {

/// A message goes by where it comes from: a response nowhere, a request of another node
/// to the reads and writes of the chain, and one of the own node to the HTTP handler, the
/// provider's handler or the orders, by the process that sent it. Every message has one
/// of these ways, and only one.
pub proof fn law_every_message_has_its_way(
    is_request: bool,
    source_node: Seq<char>,
    our_node: Seq<char>,
    process: Seq<char>,
)
    ensures
        ({
            let route = route_of(is_request, source_node, our_node, process);
            let own = is_request && source_node == our_node;
            &&& route == Route::Ignored <==> !is_request
            &&& route == Route::Remote <==> is_request && source_node != our_node
            &&& route == Route::Http <==> own && process == "http_server:distro:sys"@
            &&& route == Route::Eth <==> own && process == "eth:distro:sys"@
            &&& route == Route::Admin <==> own && process != "http_server:distro:sys"@ && process
                != "eth:distro:sys"@
        }),
{
    reveal_strlit("http_server:distro:sys");
    reveal_strlit("eth:distro:sys");
    assert("http_server:distro:sys"@.len() != "eth:distro:sys"@.len());
}

/// A write does to the rollup what its transaction does, and nothing to the routers or
/// the connection. It is noted for proving, with its node, exactly where the transaction
/// was carried out.
pub proof fn law_a_write_does_what_its_transaction_does(
    s: SequencerView,
    p: Posted<DaoTransaction>,
    node: Option<String>,
)
    ensures
        ({
            let (t, r) = write_step(s, p, node);
            &&& t.rollup == posted_step(s.rollup, p).0
            &&& r == posted_step(s.rollup, p).1
            &&& t.routers == s.routers
            &&& t.connection == s.connection
            &&& r == Some(Ok::<(), EngineError>(())) ==> t.sequenced == s.sequenced.push(
                (p.stx, node),
            )
            &&& r != Some(Ok::<(), EngineError>(())) ==> t.sequenced == s.sequenced
        }),
{
}

/// Another node is told that its request has no blob, is given the routers and nothing
/// else it may ask to read, is told that a write without a transaction is bad, and has
/// its transaction carried out under its own name; a refusal reaches it as it is.
pub proof fn law_other_nodes_are_answered(s: SequencerView, message: RemoteMessage, node: String)
    ensures
        ({
            let (t, r) = remote_step(s, message, node);
            &&& message is NoBlob ==> t == s && r == Some(
                Err::<RemoteReply, _>(SequencerError::NoRequestBlob),
            )
            &&& message == RemoteMessage::Read(ReadRequest::Routers) ==> t == s && r == Some(
                Ok::<_, SequencerError>(RemoteReply::Routers),
            )
            &&& message is Read && message != RemoteMessage::Read(ReadRequest::Routers) ==> t == s
                && r is None
            &&& message == RemoteMessage::Write(None) ==> t == s && r == Some(
                Ok::<_, SequencerError>(RemoteReply::BadRequest),
            )
            &&& message matches RemoteMessage::Write(Some(p)) ==> {
                let (u, q) = write_step(s, p, Some(node));
                &&& t == u
                &&& q is None <==> r is None
                &&& q is Some && q->0 is Ok <==> r == Some(
                    Ok::<_, SequencerError>(RemoteReply::Written),
                )
                &&& q is Some && q->0 is Err ==> r == Some(
                    Err::<RemoteReply, _>(SequencerError::Engine(q->0->Err_0)),
                )
            }
        }),
{
}

/// The own frontend is given the routers for a read, is told that a write without a
/// transaction is bad, has its transaction carried out under no node's name and gets a
/// receipt for it; a refusal reaches it as it is. No other method is allowed.
pub proof fn law_the_frontend_is_answered(
    s: SequencerView,
    method: Seq<char>,
    posted: Option<Posted<DaoTransaction>>,
)
    ensures
        ({
            let (t, r) = http_step(s, method, posted);
            &&& method == "GET"@ ==> t == s && r == Some(
                Ok::<_, SequencerError>(HttpReply { status: 200, body: HttpBody::Routers }),
            )
            &&& method == "POST"@ && posted is None ==> t == s && r == Some(
                Ok::<_, SequencerError>(HttpReply { status: 400, body: HttpBody::Empty }),
            )
            &&& method == "POST"@ && posted is Some ==> {
                let (u, q) = write_step(s, posted->0, None);
                &&& t == u
                &&& q is None <==> r is None
                &&& q is Some && q->0 is Ok <==> r == Some(
                    Ok::<_, SequencerError>(HttpReply { status: 200, body: HttpBody::Receipt }),
                )
                &&& q is Some && q->0 is Err ==> r == Some(
                    Err::<HttpReply, _>(SequencerError::Engine(q->0->Err_0)),
                )
            }
            &&& method != "GET"@ && method != "POST"@ ==> t == s && r == Some(
                Ok::<_, SequencerError>(HttpReply { status: 405, body: HttpBody::Empty }),
            )
        }),
{
    reveal_strlit("GET");
    reveal_strlit("POST");
    assert("GET"@.len() != "POST"@.len());
}

/// A log that the provider tells of does to the rollup what its event does, and nothing
/// to the rest. What cannot be read is refused; what is no log, or a malformed one, has no
/// answer.
pub proof fn law_the_provider_is_heard(s: SequencerView, message: EthMessage)
    ensures
        ({
            let (t, r) = eth_step(s, message);
            &&& message is Invalid ==> t == s && r == Some(
                Err::<LogOutcome, _>(SequencerError::InvalidMessage),
            )
            &&& message is NotALog ==> t == s && r is None
            &&& message matches EthMessage::Log(log) ==> {
                let (u, q) = event_step(s.rollup, event_of(log));
                &&& event_of(log) is Malformed ==> t == s && r is None
                &&& !(event_of(log) is Malformed) ==> {
                    &&& t == (SequencerView { rollup: u, ..s })
                    &&& q is Ok ==> r == Some(Ok::<_, SequencerError>(q->Ok_0))
                    &&& q is Err ==> r == Some(
                        Err::<LogOutcome, _>(SequencerError::Bridge(q->Err_0)),
                    )
                }
            }
        }),
{
}

/// A prover that connects is the one that is expected from then on. While none is, the
/// channel 0 stands for it. Only the expected channel can be closed, after which there is
/// none; only on it is anything taken, and only binary data that were pushed. A proof can
/// be started exactly while a prover is connected. Nothing else changes in any of these.
pub proof fn law_the_expected_channel_counts(
    s: SequencerView,
    channel: u32,
    is_binary: bool,
    blob: PushBlob,
)
    ensures
        ({
            let open = s.connection is Some;
            let expected = (open && s.connection == Some(channel)) || (!open && channel == 0);
            let (t, r) = close_step(s, channel);
            let refusal = push_refusal(s, channel, is_binary, blob);
            &&& expected ==> r is Ok && t == (SequencerView { connection: None, ..s })
            &&& !expected ==> r == Err::<(), _>(SequencerError::WrongCloseChannel) && t == s
            &&& refusal == Some(SequencerError::WrongChannel) <==> !expected
            &&& refusal == Some(SequencerError::NotBinary) <==> expected && !is_binary
            &&& refusal == Some(SequencerError::NoPushBlob) <==> expected && is_binary
                && blob is Missing
            &&& refusal == Some(SequencerError::NotPushData) <==> expected && is_binary
                && blob is Other
            &&& refusal is None <==> expected && is_binary && blob is Data
            &&& opened(s, channel) == (SequencerView { connection: Some(channel), ..s })
            &&& open ==> proof_channel(s) == Ok::<_, SequencerError>(s.connection->0)
            &&& !open ==> proof_channel(s) == Err::<u32, _>(SequencerError::NoConnection)
        }),
{
}

/// A message of the HTTP server does what its part does: a request is answered, a channel
/// opened or closed, and data that are taken are the proof to store, as they were pushed.
pub proof fn law_the_http_server_is_heard(s: SequencerView, request: HttpServerRequest)
    ensures
        ({
            let (t, r) = http_server_step(s, request);
            &&& request matches HttpServerRequest::Http { method, posted } ==> {
                let (u, q) = http_step(s, method@, posted);
                &&& t == u
                &&& q is None <==> r is None
                &&& q is Some && q->0 is Ok ==> r == Some(
                    Ok::<_, SequencerError>(HttpOutcome::Reply(q->0->Ok_0)),
                )
                &&& q is Some && q->0 is Err ==> r == Some(Err::<HttpOutcome, _>(q->0->Err_0))
            }
            &&& request matches HttpServerRequest::WebSocketOpen { channel } ==> t == (
            SequencerView { connection: Some(channel), ..s }) && r == Some(
                Ok::<_, SequencerError>(HttpOutcome::Nothing),
            )
            &&& request matches HttpServerRequest::WebSocketClose { channel } ==> {
                let (u, q) = close_step(s, channel);
                &&& t == u
                &&& q is Ok ==> r == Some(Ok::<_, SequencerError>(HttpOutcome::Nothing))
                &&& q is Err ==> r == Some(Err::<HttpOutcome, _>(q->Err_0))
            }
            &&& request matches HttpServerRequest::WebSocketPush { channel, is_binary, blob } ==> {
                let refusal = push_refusal(s, channel, is_binary, blob);
                &&& t == s
                &&& refusal is Some ==> r == Some(Err::<HttpOutcome, _>(refusal->0))
                &&& refusal is None ==> (blob matches PushBlob::Data(data) && r == Some(
                    Ok::<_, SequencerError>(HttpOutcome::Proof(data)),
                ))
            }
        }),
{
}

/// An order to prove changes nothing until the transactions have been sent; then there
/// are none left, and all else stays. An order to batch makes one more batch, of all
/// withdrawals that wait and under the root given, not confirmed yet; once it is stored
/// none waits. No batch that was there, no account and no other part changes.
pub proof fn law_orders_are_carried_out(s: SequencerView, root: [u8; 32])
    ensures
        admin_state(s, AdminActions::Prove) == s,
        handed_over(s).sequenced.len() == 0,
        handed_over(s).rollup == s.rollup,
        handed_over(s).routers == s.routers,
        handed_over(s).connection == s.connection,
        ({
            let t = admin_state(s, AdminActions::BatchWithdrawals { root });
            let kept = batch_kept(t.rollup);
            &&& t == (SequencerView { rollup: t.rollup, ..s })
            &&& t.rollup.batches.len() == s.rollup.batches.len() + 1
            &&& t.rollup.batches.last().withdrawals == s.rollup.withdrawals
            &&& t.rollup.batches.last().root == root@
            &&& !t.rollup.batches.last().verified
            &&& t.rollup.batches.drop_last() == s.rollup.batches
            &&& t.rollup == (EngineView { batches: t.rollup.batches, ..s.rollup })
            &&& kept.withdrawals.len() == 0
            &&& kept == (EngineView { withdrawals: kept.withdrawals, ..t.rollup })
        }),
{
    let t = admin_state(s, AdminActions::BatchWithdrawals { root });
    assert(t.rollup.batches.drop_last() =~= s.rollup.batches);
}

/// What is said of a sequencer is said of all that it holds.
pub proof fn law_nothing_of_a_sequencer_is_left_out(s: Sequencer)
    ensures
        s@.rollup == s.rollup@,
        s@.routers == s.routers@,
        s@.sequenced == s.sequenced@,
        s@.connection == s.connection,
{
}

} // verus!
