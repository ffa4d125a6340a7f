//! The sequencer: what it does with the messages that reach it.
//!
//! Reading and sending messages, and storing the state, is left to the caller.
//! Each function here takes what was received and tells what to reply.

use vstd::prelude::*;
use crate::address::Address;
use crate::bridge::{event_of, event_step, try_handle_log, BridgeError, Log, LogOutcome};
use crate::engine::{
    copy_transaction, posted_step, DaoTransaction, EngineError, EngineView, FullRollupState,
};
use crate::http::{
    http_method, method_named, HttpBody, HttpMethod, HttpReply, STATUS_BAD_REQUEST,
    STATUS_METHOD_NOT_ALLOWED, STATUS_OK,
};
use crate::numbers::U256;
use crate::rollup::{Posted, SignedTransaction, WithdrawTree, WithdrawTreeView};
use crate::text::same_text;

verus! {

/// What other nodes can ask the sequencer for.
#[derive(Clone, Copy, Debug, PartialEq, Eq, Structural)]
pub enum ReadRequest {
    All,
    Dao,
    Routers,
    Members,
    Proposals,
    Parameters,
}

/// The state of a sequencer.
pub struct Sequencer {
    pub rollup: FullRollupState,
    /// The nodes that route for the DAO.
    pub routers: Vec<String>,
    /// The transactions that are to be proved, each with the node that sent it;
    /// none for those from the sequencer's own frontend. They are what was written
    /// since the last proof was started. The list in `rollup` is another one: it
    /// holds every transaction since the start but for deposits, and is not emptied.
    pub sequenced: Vec<(SignedTransaction<DaoTransaction>, Option<String>)>,
    /// The channel to the prover, while there is one.
    pub connection: Option<u32>,
}

/// Why a message is refused.
#[derive(Clone, Copy, Debug, PartialEq, Eq, Structural)]
pub enum SequencerError {
    NoRequestBlob,
    InvalidMessage,
    WrongCloseChannel,
    WrongChannel,
    NotBinary,
    NoPushBlob,
    NotPushData,
    NoConnection,
    Engine(EngineError),
    Bridge(BridgeError),
}

impl SequencerError {
    /// The words for a reason.
    pub open spec fn words(self) -> Seq<char> {
        match self {
            SequencerError::NoRequestBlob => {
                "got Request without blob: expected Read or Write() in blob"@
            },
            SequencerError::InvalidMessage => "sequencer: got invalid message"@,
            SequencerError::WrongCloseChannel => "WebSocketClose wrong channel_id"@,
            SequencerError::WrongChannel => "wrong channel_id"@,
            SequencerError::NotBinary => "expected binary message"@,
            SequencerError::NoPushBlob => "WebSocketPush Binary had no blob"@,
            SequencerError::NotPushData => "expected WebSocketExtPushData"@,
            SequencerError::NoConnection => "no connection"@,
            SequencerError::Engine(e) => e.words(),
            SequencerError::Bridge(_) => "unknown event"@,
        }
    }

    /// The reason in words.
    pub fn message(self) -> (r: &'static str)
        ensures
            r@ == self.words(),
    {
        match self {
            SequencerError::NoRequestBlob => {
                "got Request without blob: expected Read or Write() in blob"
            },
            SequencerError::InvalidMessage => "sequencer: got invalid message",
            SequencerError::WrongCloseChannel => "WebSocketClose wrong channel_id",
            SequencerError::WrongChannel => "wrong channel_id",
            SequencerError::NotBinary => "expected binary message",
            SequencerError::NoPushBlob => "WebSocketPush Binary had no blob",
            SequencerError::NotPushData => "expected WebSocketExtPushData",
            SequencerError::NoConnection => "no connection",
            SequencerError::Engine(e) => e.message(),
            SequencerError::Bridge(e) => e.message(),
        }
    }
}

/// The contents of a [`Sequencer`].
#[verifier::ext_equal]
pub struct SequencerView {
    pub rollup: EngineView,
    pub routers: Seq<String>,
    pub sequenced: Seq<(SignedTransaction<DaoTransaction>, Option<String>)>,
    pub connection: Option<u32>,
}

impl View for Sequencer {
    type V = SequencerView;

    open spec fn view(&self) -> SequencerView {
        SequencerView {
            rollup: self.rollup@,
            routers: self.routers@,
            sequenced: self.sequenced@,
            connection: self.connection,
        }
    }
}

/// Who is to handle a message.
#[derive(Clone, Copy, Debug, PartialEq, Eq, Structural)]
pub enum Route {
    /// Nobody: it is a response.
    Ignored,
    /// It comes from another node, and can read and write the chain.
    Remote,
    /// It comes from the HTTP server of the own node.
    Http,
    /// It comes from the provider of the chain below.
    Eth,
    /// It comes from elsewhere on the own node, and gives orders.
    Admin,
}

/// Who is to handle a message, given where it comes from.
pub open spec fn route_of(
    is_request: bool,
    source_node: Seq<char>,
    our_node: Seq<char>,
    process: Seq<char>,
) -> Route {
    if !is_request {
        Route::Ignored
    } else if source_node != our_node {
        Route::Remote
    } else if process == "http_server:distro:sys"@ {
        Route::Http
    } else if process == "eth:distro:sys"@ {
        Route::Eth
    } else {
        Route::Admin
    }
}

/// Tells who is to handle a message.
pub fn route_message(is_request: bool, source_node: &str, our_node: &str, process: &str) -> (r:
    Route)
    ensures
        r == route_of(is_request, source_node@, our_node@, process@),
{
    if !is_request {
        Route::Ignored
    } else if !same_text(source_node, our_node) {
        Route::Remote
    } else if same_text(process, "http_server:distro:sys") {
        Route::Http
    } else if same_text(process, "eth:distro:sys") {
        Route::Eth
    } else {
        Route::Admin
    }
}

/// The state after a transaction was received from `node`, and the answer to it;
/// `None` where it cannot be answered. A transaction that is carried out is to be
/// proved.
pub open spec fn write_step(
    s: SequencerView,
    posted: Posted<DaoTransaction>,
    node: Option<String>,
) -> (SequencerView, Option<Result<(), EngineError>>) {
    let (rollup, r) = posted_step(s.rollup, posted);
    let sequenced = match r {
        Some(Ok(_)) => s.sequenced.push((posted.stx, node)),
        _ => s.sequenced,
    };
    (SequencerView { rollup, sequenced, ..s }, r)
}

/// A message from another node.
pub enum RemoteMessage {
    /// It has no blob.
    NoBlob,
    /// Its blob asks to read.
    Read(ReadRequest),
    /// Its blob asks to write, and holds a transaction unless it is gone.
    Write(Option<Posted<DaoTransaction>>),
}

/// What is replied to another node.
#[derive(Clone, Copy, Debug, PartialEq, Eq, Structural)]
pub enum RemoteReply {
    /// The routers.
    Routers,
    /// That the request was bad.
    BadRequest,
    /// Nothing, once the state has been stored: the transaction is sequenced.
    Written,
}

/// The state after a message from the node `node`, and the reply; `None` where
/// there is none. Only the routers can be read.
pub open spec fn remote_step(s: SequencerView, message: RemoteMessage, node: String) -> (
    SequencerView,
    Option<Result<RemoteReply, SequencerError>>,
) {
    match message {
        RemoteMessage::NoBlob => (s, Some(Err(SequencerError::NoRequestBlob))),
        RemoteMessage::Read(ReadRequest::Routers) => (s, Some(Ok(RemoteReply::Routers))),
        RemoteMessage::Read(_) => (s, None),
        RemoteMessage::Write(None) => (s, Some(Ok(RemoteReply::BadRequest))),
        RemoteMessage::Write(Some(posted)) => {
            let (t, r) = write_step(s, posted, Some(node));
            (
                t,
                match r {
                    Some(Ok(_)) => Some(Ok(RemoteReply::Written)),
                    Some(Err(e)) => Some(Err(SequencerError::Engine(e))),
                    None => None,
                },
            )
        },
    }
}

/// The state after a request over HTTP, and the reply; `None` where there is
/// none. A read gets the routers.
pub open spec fn http_step(
    s: SequencerView,
    method: Seq<char>,
    posted: Option<Posted<DaoTransaction>>,
) -> (SequencerView, Option<Result<HttpReply, SequencerError>>) {
    match method_named(method) {
        HttpMethod::Get => (s, Some(Ok(HttpReply { status: 200, body: HttpBody::Routers }))),
        HttpMethod::Post => match posted {
            None => (s, Some(Ok(HttpReply { status: 400, body: HttpBody::Empty }))),
            Some(p) => {
                let (t, r) = write_step(s, p, None);
                (
                    t,
                    match r {
                        Some(Ok(_)) => Some(
                            Ok(HttpReply { status: 200, body: HttpBody::Receipt }),
                        ),
                        Some(Err(e)) => Some(Err(SequencerError::Engine(e))),
                        None => None,
                    },
                )
            },
        },
        HttpMethod::Other => (s, Some(Ok(HttpReply { status: 405, body: HttpBody::Empty }))),
    }
}

/// A message from the provider of the chain below.
pub enum EthMessage {
    /// It cannot be read.
    Invalid,
    /// It tells of something else than a log.
    NotALog,
    Log(Log),
}

/// The state after a message from the provider, and what came of it; `None` where
/// it tells of no log, or of one that is malformed.
pub open spec fn eth_step(s: SequencerView, message: EthMessage) -> (
    SequencerView,
    Option<Result<LogOutcome, SequencerError>>,
) {
    match message {
        EthMessage::Invalid => (s, Some(Err(SequencerError::InvalidMessage))),
        EthMessage::NotALog => (s, None),
        EthMessage::Log(log) => if event_of(log) is Malformed {
            (s, None)
        } else {
            let (rollup, r) = event_step(s.rollup, event_of(log));
            (
                SequencerView { rollup, ..s },
                match r {
                    Ok(outcome) => Some(Ok(outcome)),
                    Err(e) => Some(Err(SequencerError::Bridge(e))),
                },
            )
        },
    }
}

/// The channel that messages of the prover are expected on: the one that is
/// open, or 0 while there is none.
pub open spec fn expected_channel(s: SequencerView) -> u32 {
    match s.connection {
        Some(channel) => channel,
        None => 0,
    }
}

/// The blob of a message that the prover has pushed.
pub enum PushBlob {
    Missing,
    /// It holds something else than pushed data.
    Other,
    /// The data that were pushed: a proof.
    Data(Vec<u8>),
}

/// Why a message of the prover is refused, if so.
pub open spec fn push_refusal(
    s: SequencerView,
    channel: u32,
    is_binary: bool,
    blob: PushBlob,
) -> Option<SequencerError> {
    if channel != expected_channel(s) {
        Some(SequencerError::WrongChannel)
    } else if !is_binary {
        Some(SequencerError::NotBinary)
    } else {
        match blob {
            PushBlob::Missing => Some(SequencerError::NoPushBlob),
            PushBlob::Other => Some(SequencerError::NotPushData),
            PushBlob::Data(_) => None,
        }
    }
}

/// The state after a channel was closed, which has to be the expected one.
pub open spec fn close_step(s: SequencerView, channel: u32) -> (
    SequencerView,
    Result<(), SequencerError>,
) {
    if channel != expected_channel(s) {
        (s, Err(SequencerError::WrongCloseChannel))
    } else {
        (SequencerView { connection: None, ..s }, Ok(()))
    }
}

/// The state once a prover has connected, in place of any before it.
pub open spec fn opened(s: SequencerView, channel: u32) -> SequencerView {
    SequencerView { connection: Some(channel), ..s }
}

/// The channel on which the transactions are to be sent to the prover.
pub open spec fn proof_channel(s: SequencerView) -> Result<u32, SequencerError> {
    match s.connection {
        Some(channel) => Ok(channel),
        None => Err(SequencerError::NoConnection),
    }
}

/// The state once the transactions have been sent to the prover: there are none
/// left to prove. What the rollup has sequenced stays.
pub open spec fn handed_over(s: SequencerView) -> SequencerView {
    SequencerView { sequenced: Seq::empty(), ..s }
}

/// A message of the HTTP server.
pub enum HttpServerRequest {
    /// A request, with its method and the transaction that it brings, if any.
    Http { method: String, posted: Option<Posted<DaoTransaction>> },
    /// A prover has connected.
    WebSocketOpen { channel: u32 },
    /// A channel was closed.
    WebSocketClose { channel: u32 },
    /// A message was pushed on a channel.
    WebSocketPush { channel: u32, is_binary: bool, blob: PushBlob },
}

/// What is to be done about a message of the HTTP server.
pub enum HttpOutcome {
    /// A reply is to be sent.
    Reply(HttpReply),
    /// A proof is to be stored.
    Proof(Vec<u8>),
    Nothing,
}

/// The state after a message of the HTTP server, and what is to be done; `None`
/// where it cannot be answered.
pub open spec fn http_server_step(s: SequencerView, request: HttpServerRequest) -> (
    SequencerView,
    Option<Result<HttpOutcome, SequencerError>>,
) {
    match request {
        HttpServerRequest::Http { method, posted } => {
            let (t, r) = http_step(s, method@, posted);
            (
                t,
                match r {
                    Some(Ok(reply)) => Some(Ok(HttpOutcome::Reply(reply))),
                    Some(Err(e)) => Some(Err(e)),
                    None => None,
                },
            )
        },
        HttpServerRequest::WebSocketOpen { channel } => (
            opened(s, channel),
            Some(Ok(HttpOutcome::Nothing)),
        ),
        HttpServerRequest::WebSocketClose { channel } => {
            let (t, r) = close_step(s, channel);
            (
                t,
                match r {
                    Ok(_) => Some(Ok(HttpOutcome::Nothing)),
                    Err(e) => Some(Err(e)),
                },
            )
        },
        HttpServerRequest::WebSocketPush { channel, is_binary, blob } => (
            s,
            match push_refusal(s, channel, is_binary, blob) {
                Some(e) => Some(Err(e)),
                None => Some(Ok(HttpOutcome::Proof(blob->Data_0))),
            },
        ),
    }
}

/// The orders that can be given on the own node.
pub enum AdminActions {
    /// To have the sequenced transactions proved.
    Prove,
    /// To make a batch of the withdrawals, under its root.
    BatchWithdrawals { root: [u8; 32] },
}

/// What is to be done to carry out an order. Once it is done, the sequencer is to
/// be told by [`Sequencer::proof_started`] or [`Sequencer::batch_stored`].
#[derive(Clone, Copy, Debug, PartialEq, Eq, Structural)]
pub enum AdminStep {
    /// The sequenced transactions are to be sent to the prover.
    SendToProver { channel: u32 },
    /// The last batch is to be stored, by the number of batches.
    StoreBatch { number: usize },
}

/// What batching does: all withdrawals that are noted make up one more batch,
/// which the chain below has not confirmed.
pub open spec fn batched(s: EngineView, root: Seq<u8>) -> EngineView {
    EngineView {
        batches: s.batches.push(
            WithdrawTreeView { withdrawals: s.withdrawals, root, verified: false },
        ),
        ..s
    }
}

/// The state once the last batch has been stored: no withdrawal waits.
pub open spec fn batch_kept(s: EngineView) -> EngineView {
    EngineView { withdrawals: Seq::empty(), ..s }
}

/// The state after an order was given.
pub open spec fn admin_state(s: SequencerView, action: AdminActions) -> SequencerView {
    match action {
        AdminActions::Prove => s,
        AdminActions::BatchWithdrawals { root } => SequencerView {
            rollup: batched(s.rollup, root@),
            ..s
        },
    }
}

/// Copies a list of withdrawals.
fn copy_withdrawals(list: &Vec<(Address, U256)>) -> (r: Vec<(Address, U256)>)
    ensures
        r@ == list@,
{
    let mut r: Vec<(Address, U256)> = Vec::new();
    while r.len() < list.len()
        invariant
            r@.len() <= list@.len(),
            r@ == list@.take(r@.len() as int),
        decreases list@.len() - r@.len(),
    {
        let (account, amount) = list[r.len()];
        r.push((account, amount));
        proof {
            assert(r@ =~= list@.take(r@.len() as int));
        }
    }
    r
}

impl Sequencer {
    /// A sequencer over a rollup, with nothing to prove and no prover.
    pub fn new(rollup: FullRollupState, routers: Vec<String>) -> (r: Sequencer)
        ensures
            r.rollup == rollup,
            r.routers == routers,
            r.sequenced@ == Seq::<(SignedTransaction<DaoTransaction>, Option<String>)>::empty(),
            r.connection is None,
    {
        Sequencer { rollup, routers, sequenced: Vec::new(), connection: None }
    }

    /// Carries out a transaction that came from `node` and notes it for proving.
    pub fn write(&mut self, posted: Posted<DaoTransaction>, node: Option<String>) -> (r: Option<
        Result<(), EngineError>,
    >)
        ensures
            (final(self)@, r) == write_step(old(self)@, posted, node),
    {
        let stx = copy_transaction(&posted.stx);
        let r = self.rollup.try_execute(posted.stx, posted.message.as_slice());
        if let Some(Ok(())) = r {
            self.sequenced.push((stx, node));
        }
        r
    }

    /// Handles a message from the node `node`. The state is to be stored before a
    /// written transaction is replied to.
    pub fn handle_remote(&mut self, message: RemoteMessage, node: String) -> (r: Option<
        Result<RemoteReply, SequencerError>,
    >)
        ensures
            (final(self)@, r) == remote_step(old(self)@, message, node),
    {
        match message {
            RemoteMessage::NoBlob => Some(Err(SequencerError::NoRequestBlob)),
            RemoteMessage::Read(request) => match request {
                ReadRequest::Routers => Some(Ok(RemoteReply::Routers)),
                _ => None,
            },
            RemoteMessage::Write(posted) => match posted {
                None => Some(Ok(RemoteReply::BadRequest)),
                Some(p) => match self.write(p, Some(node)) {
                    Some(Ok(())) => Some(Ok(RemoteReply::Written)),
                    Some(Err(e)) => Some(Err(SequencerError::Engine(e))),
                    None => None,
                },
            },
        }
    }

    /// Answers a request over HTTP from the own frontend. The state is to be
    /// stored before a receipt is sent.
    pub fn answer_http(
        &mut self,
        method: &str,
        posted: Option<Posted<DaoTransaction>>,
    ) -> (r: Option<Result<HttpReply, SequencerError>>)
        ensures
            (final(self)@, r) == http_step(old(self)@, method@, posted),
    {
        match http_method(method) {
            HttpMethod::Get => Some(Ok(HttpReply { status: STATUS_OK, body: HttpBody::Routers })),
            HttpMethod::Post => match posted {
                None => Some(
                    Ok(HttpReply { status: STATUS_BAD_REQUEST, body: HttpBody::Empty }),
                ),
                Some(p) => match self.write(p, None) {
                    Some(Ok(())) => Some(
                        Ok(HttpReply { status: STATUS_OK, body: HttpBody::Receipt }),
                    ),
                    Some(Err(e)) => Some(Err(SequencerError::Engine(e))),
                    None => None,
                },
            },
            HttpMethod::Other => Some(
                Ok(HttpReply { status: STATUS_METHOD_NOT_ALLOWED, body: HttpBody::Empty }),
            ),
        }
    }

    /// Handles a message from the provider of the chain below.
    pub fn handle_eth(&mut self, message: EthMessage) -> (r: Option<
        Result<LogOutcome, SequencerError>,
    >)
        ensures
            (final(self)@, r) == eth_step(old(self)@, message),
    {
        match message {
            EthMessage::Invalid => Some(Err(SequencerError::InvalidMessage)),
            EthMessage::NotALog => None,
            EthMessage::Log(log) => match try_handle_log(&mut self.rollup, &log) {
                Some(Ok(outcome)) => Some(Ok(outcome)),
                Some(Err(e)) => Some(Err(SequencerError::Bridge(e))),
                None => None,
            },
        }
    }

    /// A prover has connected, in place of any before it.
    pub fn websocket_open(&mut self, channel: u32)
        ensures
            final(self)@ == opened(old(self)@, channel),
    {
        self.connection = Some(channel);
    }

    /// A channel was closed, which has to be the one that is expected.
    pub fn websocket_close(&mut self, channel: u32) -> (r: Result<(), SequencerError>)
        ensures
            (final(self)@, r) == close_step(old(self)@, channel),
    {
        let expected: u32 = match self.connection {
            Some(c) => c,
            None => 0,
        };
        if expected != channel {
            return Err(SequencerError::WrongCloseChannel);
        }
        self.connection = None;
        Ok(())
    }

    /// A message was pushed on a channel. The result is the proof that it brings,
    /// which is to be stored.
    pub fn websocket_push(&self, channel: u32, is_binary: bool, blob: PushBlob) -> (r: Result<
        Vec<u8>,
        SequencerError,
    >)
        ensures
            match push_refusal(self@, channel, is_binary, blob) {
                Some(e) => r == Err::<Vec<u8>, SequencerError>(e),
                None => r is Ok && blob == PushBlob::Data(r->Ok_0),
            },
    {
        let expected: u32 = match self.connection {
            Some(c) => c,
            None => 0,
        };
        if expected != channel {
            return Err(SequencerError::WrongChannel);
        }
        if !is_binary {
            return Err(SequencerError::NotBinary);
        }
        match blob {
            PushBlob::Missing => Err(SequencerError::NoPushBlob),
            PushBlob::Other => Err(SequencerError::NotPushData),
            PushBlob::Data(proof_bytes) => Ok(proof_bytes),
        }
    }

    /// The channel on which the sequenced transactions are to be sent to the
    /// prover.
    pub fn start_proof(&self) -> (r: Result<u32, SequencerError>)
        ensures
            r == proof_channel(self@),
    {
        match self.connection {
            Some(channel) => Ok(channel),
            None => Err(SequencerError::NoConnection),
        }
    }

    /// The transactions to prove have been sent to the prover. The list of all
    /// transactions in the rollup stays.
    pub fn proof_started(&mut self)
        ensures
            final(self)@ == handed_over(old(self)@),
    {
        self.sequenced = Vec::new();
    }

    /// Makes a batch of the withdrawals, under its root. The result is the number
    /// of batches, by which it is to be stored.
    pub fn batch_withdrawals(&mut self, root: [u8; 32]) -> (r: usize)
        ensures
            final(self)@ == (SequencerView {
                rollup: batched(old(self)@.rollup, root@),
                ..old(self)@
            }),
            r == final(self)@.rollup.batches.len(),
    {
        let withdrawals = copy_withdrawals(&self.rollup.withdrawals);
        self.rollup.batches.push(WithdrawTree { withdrawals, root, verified: false });
        proof {
            assert(self@.rollup.batches =~= batched(old(self)@.rollup, root@).batches);
        }
        self.rollup.batches.len()
    }

    /// The batch has been stored: its withdrawals are no longer waiting.
    pub fn batch_stored(&mut self)
        ensures
            final(self)@ == (SequencerView {
                rollup: batch_kept(old(self)@.rollup),
                ..old(self)@
            }),
    {
        self.rollup.withdrawals = Vec::new();
    }

    /// Handles a message of the HTTP server.
    pub fn handle_http_request(&mut self, request: HttpServerRequest) -> (r: Option<
        Result<HttpOutcome, SequencerError>,
    >)
        ensures
            (final(self)@, r) == http_server_step(old(self)@, request),
    {
        match request {
            HttpServerRequest::Http { method, posted } => {
                match self.answer_http(method.as_str(), posted) {
                    Some(Ok(reply)) => Some(Ok(HttpOutcome::Reply(reply))),
                    Some(Err(e)) => Some(Err(e)),
                    None => None,
                }
            },
            HttpServerRequest::WebSocketOpen { channel } => {
                self.websocket_open(channel);
                Some(Ok(HttpOutcome::Nothing))
            },
            HttpServerRequest::WebSocketClose { channel } => match self.websocket_close(channel) {
                Ok(()) => Some(Ok(HttpOutcome::Nothing)),
                Err(e) => Some(Err(e)),
            },
            HttpServerRequest::WebSocketPush { channel, is_binary, blob } => {
                match self.websocket_push(channel, is_binary, blob) {
                    Ok(proof_bytes) => Some(Ok(HttpOutcome::Proof(proof_bytes))),
                    Err(e) => Some(Err(e)),
                }
            },
        }
    }

    /// Handles an order that was given on the own node.
    pub fn handle_admin_message(&mut self, action: AdminActions) -> (r: Result<
        AdminStep,
        SequencerError,
    >)
        ensures
            final(self)@ == admin_state(old(self)@, action),
            match action {
                AdminActions::Prove => r == (match proof_channel(old(self)@) {
                    Ok(channel) => Ok::<AdminStep, SequencerError>(
                        AdminStep::SendToProver { channel },
                    ),
                    Err(e) => Err(e),
                }),
                AdminActions::BatchWithdrawals { .. } => r matches Ok(
                    AdminStep::StoreBatch { number },
                ) && number == final(self)@.rollup.batches.len(),
            },
    {
        match action {
            AdminActions::Prove => match self.start_proof() {
                Ok(channel) => Ok(AdminStep::SendToProver { channel }),
                Err(e) => Err(e),
            },
            AdminActions::BatchWithdrawals { root } => {
                let number: usize = self.batch_withdrawals(root);
                Ok(AdminStep::StoreBatch { number })
            },
        }
    }
}

} // verus!
