//! Two ways of getting the data of a template from the node.
//!
//! Three calls are needed: for the header, for the coinbase transaction and for its
//! merkle path. The sequential way makes them one after the other on a thread of its
//! own; the concurrent way makes them at once, each on a thread it is given.
use crate::context::{thread_made, IpcContext};
use crate::decode::{collect_merkle_path, decode_header, decode_transaction};
use crate::error::IpcError;
use crate::types::{BlockHeader, Capability, Transaction, TransactionView};
use vstd::prelude::*;

verus! {

/// The data of a template.
#[derive(Debug)]
pub struct TemplateData {
    pub header: BlockHeader,
    pub coinbase_tx: Transaction,
    pub merkle_path: Vec<Vec<u8>>,
}

/// A call to the object `template`, made on `thread`.
#[derive(Clone, Copy, Debug, PartialEq, Eq, Structural)]
pub struct TemplateCall {
    pub template: Capability,
    pub thread: Capability,
}

/// What came of an await.
#[derive(Debug)]
pub enum FetchEvent {
    /// The fetch begins.
    Started,
    /// The node has made a thread.
    ThreadMade(Result<Capability, capnp::Error>),
    /// The bytes of the header.
    Header(Result<Vec<u8>, capnp::Error>),
    /// The bytes of the coinbase transaction.
    CoinbaseTx(Result<Vec<u8>, capnp::Error>),
    /// The list of hashes in the merkle path, each as far as it can be read.
    MerklePath(Result<Vec<Result<Vec<u8>, capnp::Error>>, capnp::Error>),
}

/// What to do next, and await.
#[derive(Debug)]
pub enum FetchAction {
    /// Ask `thread_map` for a thread.
    MakeThread { thread_map: Capability },
    /// Ask for the header.
    GetBlockHeader(TemplateCall),
    /// Ask for the coinbase transaction.
    GetCoinbaseTx(TemplateCall),
    /// Ask for the merkle path of the coinbase transaction.
    GetCoinbaseMerklePath(TemplateCall),
    /// Ask for all three at once.
    GetAll { header: TemplateCall, coinbase_tx: TemplateCall, merkle_path: TemplateCall },
    /// Hand out the data, or say why there is none. Calls still under way are dropped.
    Finish(Result<TemplateData, IpcError>),
    /// Go on awaiting the same.
    KeepWaiting,
}

/// What the sequential fetch awaits.
#[derive(Debug)]
pub enum SequentialState {
    /// Nothing yet.
    Starting,
    /// A thread.
    MakingThread,
    /// The header.
    GettingHeader { thread: Capability },
    /// The coinbase transaction.
    GettingCoinbaseTx { thread: Capability, header: BlockHeader },
    /// The merkle path.
    GettingMerklePath { header: BlockHeader, coinbase_tx: Transaction },
    /// Nothing any more.
    Done,
}

/// What the concurrent fetch awaits.
#[derive(Debug)]
pub enum ConcurrentState {
    /// Nothing yet.
    Starting,
    /// What is not there yet.
    Getting {
        header: Option<BlockHeader>,
        coinbase_tx: Option<Transaction>,
        merkle_path: Option<Vec<Vec<u8>>>,
    },
    /// Nothing any more.
    Done,
}

/// The threads of a concurrent fetch, one for each call.
#[derive(Clone, Copy, Debug, PartialEq, Eq, Structural)]
pub struct FetchThreads {
    pub header: Capability,
    pub coinbase_tx: Capability,
    pub merkle_path: Capability,
}

/// What a [`TemplateData`] holds.
#[verifier::ext_equal]
pub struct TemplateDataView {
    pub header: BlockHeader,
    pub coinbase_tx: TransactionView,
    pub merkle_path: Seq<Seq<u8>>,
}

/// What a [`FetchAction`] says.
#[verifier::ext_equal]
pub enum FetchActionView {
    MakeThread { thread_map: Capability },
    GetBlockHeader(TemplateCall),
    GetCoinbaseTx(TemplateCall),
    GetCoinbaseMerklePath(TemplateCall),
    GetAll { header: TemplateCall, coinbase_tx: TemplateCall, merkle_path: TemplateCall },
    Finish(Result<TemplateDataView, IpcError>),
    KeepWaiting,
}

/// What a [`SequentialState`] says.
#[verifier::ext_equal]
pub enum SequentialStateView {
    Starting,
    MakingThread,
    GettingHeader { thread: Capability },
    GettingCoinbaseTx { thread: Capability, header: BlockHeader },
    GettingMerklePath { header: BlockHeader, coinbase_tx: TransactionView },
    Done,
}

/// What a [`ConcurrentState`] says.
#[verifier::ext_equal]
pub enum ConcurrentStateView {
    Starting,
    Getting {
        header: Option<BlockHeader>,
        coinbase_tx: Option<TransactionView>,
        merkle_path: Option<Seq<Seq<u8>>>,
    },
    Done,
}

impl View for TemplateData {
    type V = TemplateDataView;

    open spec fn view(&self) -> TemplateDataView {
        TemplateDataView {
            header: self.header,
            coinbase_tx: self.coinbase_tx@,
            merkle_path: crate::types::byte_strings(self.merkle_path@),
        }
    }
}

impl View for FetchAction {
    type V = FetchActionView;

    open spec fn view(&self) -> FetchActionView {
        match *self {
            FetchAction::MakeThread { thread_map } => FetchActionView::MakeThread { thread_map },
            FetchAction::GetBlockHeader(call) => FetchActionView::GetBlockHeader(call),
            FetchAction::GetCoinbaseTx(call) => FetchActionView::GetCoinbaseTx(call),
            FetchAction::GetCoinbaseMerklePath(call) => {
                FetchActionView::GetCoinbaseMerklePath(call)
            },
            FetchAction::GetAll { header, coinbase_tx, merkle_path } => FetchActionView::GetAll {
                header,
                coinbase_tx,
                merkle_path,
            },
            FetchAction::Finish(Ok(data)) => FetchActionView::Finish(Ok(data@)),
            FetchAction::Finish(Err(error)) => FetchActionView::Finish(Err(error)),
            FetchAction::KeepWaiting => FetchActionView::KeepWaiting,
        }
    }
}

impl View for SequentialState {
    type V = SequentialStateView;

    open spec fn view(&self) -> SequentialStateView {
        match *self {
            SequentialState::Starting => SequentialStateView::Starting,
            SequentialState::MakingThread => SequentialStateView::MakingThread,
            SequentialState::GettingHeader { thread } => SequentialStateView::GettingHeader {
                thread,
            },
            SequentialState::GettingCoinbaseTx { thread, header } => {
                SequentialStateView::GettingCoinbaseTx { thread, header }
            },
            SequentialState::GettingMerklePath { header, coinbase_tx } => {
                SequentialStateView::GettingMerklePath { header, coinbase_tx: coinbase_tx@ }
            },
            SequentialState::Done => SequentialStateView::Done,
        }
    }
}

impl View for ConcurrentState {
    type V = ConcurrentStateView;

    open spec fn view(&self) -> ConcurrentStateView {
        match *self {
            ConcurrentState::Starting => ConcurrentStateView::Starting,
            ConcurrentState::Getting { header, coinbase_tx, merkle_path } => {
                ConcurrentStateView::Getting {
                    header,
                    coinbase_tx: match coinbase_tx {
                        Some(tx) => Some(tx@),
                        None => None,
                    },
                    merkle_path: match merkle_path {
                        Some(path) => Some(crate::types::byte_strings(path@)),
                        None => None,
                    },
                }
            },
            ConcurrentState::Done => ConcurrentStateView::Done,
        }
    }
}

/// What the node's answer to the call for the header comes to.
pub open spec fn header_reply(reply: Result<Vec<u8>, capnp::Error>) -> Result<
    BlockHeader,
    IpcError,
> {
    match reply {
        Ok(bytes) => match crate::decode::encoded_header(bytes@) {
            Ok(header) => Ok(header),
            Err(error) => Err(IpcError::Decode(error)),
        },
        Err(error) => Err(IpcError::Capnp(error)),
    }
}

/// What the node's answer to the call for the coinbase transaction comes to.
pub open spec fn coinbase_reply(reply: Result<Vec<u8>, capnp::Error>) -> Result<
    TransactionView,
    IpcError,
> {
    match reply {
        Ok(bytes) => match crate::decode::encoded_transaction(bytes@) {
            Ok(tx) => Ok(tx),
            Err(error) => Err(IpcError::Decode(error)),
        },
        Err(error) => Err(IpcError::Capnp(error)),
    }
}

/// What the node's answer to the call for the merkle path comes to.
pub open spec fn merkle_reply(
    reply: Result<Vec<Result<Vec<u8>, capnp::Error>>, capnp::Error>,
) -> Result<Seq<Seq<u8>>, IpcError> {
    match reply {
        Ok(items) => match crate::decode::readable_items(items@) {
            Ok(path) => Ok(path),
            Err(error) => Err(IpcError::Capnp(error)),
        },
        Err(error) => Err(IpcError::Capnp(error)),
    }
}

/// Where `event` takes the sequential fetch: the state it is in then and what it does.
/// An event that is not awaited changes nothing.
pub open spec fn sequential_step(
    ctx: IpcContext,
    state: SequentialStateView,
    event: FetchEvent,
) -> (SequentialStateView, FetchActionView) {
    let template = ctx.block_template_client;
    match (state, event) {
        (SequentialStateView::Starting, FetchEvent::Started) => (
            SequentialStateView::MakingThread,
            FetchActionView::MakeThread { thread_map: ctx.thread_map },
        ),
        (
            SequentialStateView::MakingThread,
            FetchEvent::ThreadMade(made),
        ) => match crate::context::thread_reply(made) {
            Ok(thread) => (
                SequentialStateView::GettingHeader { thread },
                FetchActionView::GetBlockHeader(TemplateCall { template, thread }),
            ),
            Err(failure) => (SequentialStateView::Done, FetchActionView::Finish(Err(failure))),
        },
        (SequentialStateView::GettingHeader { thread }, FetchEvent::Header(reply)) => {
            match header_reply(reply) {
                Ok(header) => (
                    SequentialStateView::GettingCoinbaseTx { thread, header },
                    FetchActionView::GetCoinbaseTx(TemplateCall { template, thread }),
                ),
                Err(failure) => (
                    SequentialStateView::Done,
                    FetchActionView::Finish(Err(failure)),
                ),
            }
        },
        (
            SequentialStateView::GettingCoinbaseTx { thread, header },
            FetchEvent::CoinbaseTx(reply),
        ) => match coinbase_reply(reply) {
            Ok(coinbase_tx) => (
                SequentialStateView::GettingMerklePath { header, coinbase_tx },
                FetchActionView::GetCoinbaseMerklePath(TemplateCall { template, thread }),
            ),
            Err(failure) => (SequentialStateView::Done, FetchActionView::Finish(Err(failure))),
        },
        (
            SequentialStateView::GettingMerklePath { header, coinbase_tx },
            FetchEvent::MerklePath(reply),
        ) => (
            SequentialStateView::Done,
            FetchActionView::Finish(
                match merkle_reply(reply) {
                    Ok(merkle_path) => Ok(TemplateDataView { header, coinbase_tx, merkle_path }),
                    Err(failure) => Err(failure),
                },
            ),
        ),
        _ => (state, FetchActionView::KeepWaiting),
    }
}

/// The concurrent fetch with what it has: done if that is all, else it awaits the rest.
pub open spec fn concurrent_has(
    header: Option<BlockHeader>,
    coinbase_tx: Option<TransactionView>,
    merkle_path: Option<Seq<Seq<u8>>>,
) -> (ConcurrentStateView, FetchActionView) {
    if header is Some && coinbase_tx is Some && merkle_path is Some {
        (
            ConcurrentStateView::Done,
            FetchActionView::Finish(
                Ok(
                    TemplateDataView {
                        header: header->0,
                        coinbase_tx: coinbase_tx->0,
                        merkle_path: merkle_path->0,
                    },
                ),
            ),
        )
    } else {
        (
            ConcurrentStateView::Getting { header, coinbase_tx, merkle_path },
            FetchActionView::KeepWaiting,
        )
    }
}

/// The concurrent fetch at the first failure.
pub open spec fn concurrent_fails(failure: IpcError) -> (ConcurrentStateView, FetchActionView) {
    (ConcurrentStateView::Done, FetchActionView::Finish(Err(failure)))
}

/// Where `event` takes the concurrent fetch: the state it is in then and what it does.
/// An event that is not awaited changes nothing.
pub open spec fn concurrent_step(
    ctx: IpcContext,
    threads: FetchThreads,
    state: ConcurrentStateView,
    event: FetchEvent,
) -> (ConcurrentStateView, FetchActionView) {
    let template = ctx.block_template_client;
    match (state, event) {
        (ConcurrentStateView::Starting, FetchEvent::Started) => (
            ConcurrentStateView::Getting { header: None, coinbase_tx: None, merkle_path: None },
            FetchActionView::GetAll {
                header: TemplateCall { template, thread: threads.header },
                coinbase_tx: TemplateCall { template, thread: threads.coinbase_tx },
                merkle_path: TemplateCall { template, thread: threads.merkle_path },
            },
        ),
        (
            ConcurrentStateView::Getting { header: None, coinbase_tx, merkle_path },
            FetchEvent::Header(reply),
        ) => match header_reply(reply) {
            Ok(header) => concurrent_has(Some(header), coinbase_tx, merkle_path),
            Err(failure) => concurrent_fails(failure),
        },
        (
            ConcurrentStateView::Getting { header, coinbase_tx: None, merkle_path },
            FetchEvent::CoinbaseTx(reply),
        ) => match coinbase_reply(reply) {
            Ok(coinbase_tx) => concurrent_has(header, Some(coinbase_tx), merkle_path),
            Err(failure) => concurrent_fails(failure),
        },
        (
            ConcurrentStateView::Getting { header, coinbase_tx, merkle_path: None },
            FetchEvent::MerklePath(reply),
        ) => match merkle_reply(reply) {
            Ok(merkle_path) => concurrent_has(header, coinbase_tx, Some(merkle_path)),
            Err(failure) => concurrent_fails(failure),
        },
        _ => (state, FetchActionView::KeepWaiting),
    }
}

/// Reads the node's answer to the call for the header.
pub fn read_header(reply: Result<Vec<u8>, capnp::Error>) -> (res: Result<BlockHeader, IpcError>)
    ensures
        match res {
            Ok(header) => header_reply(reply) == Ok::<_, IpcError>(header),
            Err(error) => header_reply(reply) == Err::<BlockHeader, _>(error),
        },
        reply matches Ok(bytes) ==> (res is Ok <==> bytes@.len() == crate::decode::HEADER_SIZE),
{
    match reply {
        Ok(bytes) => decode_header(&bytes),
        Err(error) => Err(IpcError::Capnp(error)),
    }
}

/// Reads the node's answer to the call for the coinbase transaction.
pub fn read_coinbase_tx(reply: Result<Vec<u8>, capnp::Error>) -> (res: Result<
    Transaction,
    IpcError,
>)
    ensures
        match res {
            Ok(tx) => coinbase_reply(reply) == Ok::<_, IpcError>(tx@),
            Err(error) => coinbase_reply(reply) == Err::<TransactionView, _>(error),
        },
{
    match reply {
        Ok(bytes) => decode_transaction(&bytes),
        Err(error) => Err(IpcError::Capnp(error)),
    }
}

/// Reads the node's answer to the call for the merkle path.
pub fn read_merkle_path(
    reply: Result<Vec<Result<Vec<u8>, capnp::Error>>, capnp::Error>,
) -> (res: Result<Vec<Vec<u8>>, IpcError>)
    ensures
        match res {
            Ok(path) => merkle_reply(reply) == Ok::<_, IpcError>(
                crate::types::byte_strings(path@),
            ),
            Err(error) => merkle_reply(reply) == Err::<Seq<Seq<u8>>, _>(error),
        },
{
    match reply {
        Ok(items) => match collect_merkle_path(items) {
            Ok(path) => Ok(path),
            Err(error) => Err(IpcError::Capnp(error)),
        },
        Err(error) => Err(IpcError::Capnp(error)),
    }
}

/// Takes a sequential fetch from one await to the next.
pub fn fetch_template_sequential(
    ctx: &IpcContext,
    state: SequentialState,
    event: FetchEvent,
) -> (step: (SequentialState, FetchAction))
    ensures
        (step.0@, step.1@) == sequential_step(*ctx, state@, event),
        state is GettingHeader ==> (event matches FetchEvent::Header(Ok(bytes)) ==> (step.0
            is GettingCoinbaseTx <==> bytes@.len() == crate::decode::HEADER_SIZE)),
{
    let template = ctx.block_template_client;
    match (state, event) {
        (SequentialState::Starting, FetchEvent::Started) => (
            SequentialState::MakingThread,
            FetchAction::MakeThread { thread_map: ctx.new_thread_client() },
        ),
        (SequentialState::MakingThread, FetchEvent::ThreadMade(made)) => match thread_made(made) {
            Ok(thread) => (
                SequentialState::GettingHeader { thread },
                FetchAction::GetBlockHeader(TemplateCall { template, thread }),
            ),
            Err(error) => (SequentialState::Done, FetchAction::Finish(Err(error))),
        },
        (SequentialState::GettingHeader { thread }, FetchEvent::Header(reply)) => {
            match read_header(reply) {
                Ok(header) => (
                    SequentialState::GettingCoinbaseTx { thread, header },
                    FetchAction::GetCoinbaseTx(TemplateCall { template, thread }),
                ),
                Err(error) => (SequentialState::Done, FetchAction::Finish(Err(error))),
            }
        },
        (
            SequentialState::GettingCoinbaseTx { thread, header },
            FetchEvent::CoinbaseTx(reply),
        ) => match read_coinbase_tx(reply) {
            Ok(coinbase_tx) => (
                SequentialState::GettingMerklePath { header, coinbase_tx },
                FetchAction::GetCoinbaseMerklePath(TemplateCall { template, thread }),
            ),
            Err(error) => (SequentialState::Done, FetchAction::Finish(Err(error))),
        },
        (
            SequentialState::GettingMerklePath { header, coinbase_tx },
            FetchEvent::MerklePath(reply),
        ) => match read_merkle_path(reply) {
            Ok(merkle_path) => (
                SequentialState::Done,
                FetchAction::Finish(Ok(TemplateData { header, coinbase_tx, merkle_path })),
            ),
            Err(error) => (SequentialState::Done, FetchAction::Finish(Err(error))),
        },
        (state, _) => (state, FetchAction::KeepWaiting),
    }
}

/// Ends a concurrent fetch that has everything; else it goes on.
pub fn finish_if_complete(
    header: Option<BlockHeader>,
    coinbase_tx: Option<Transaction>,
    merkle_path: Option<Vec<Vec<u8>>>,
) -> (step: (ConcurrentState, FetchAction))
    ensures
        (step.0@, step.1@) == ({
            let state = ConcurrentState::Getting { header, coinbase_tx, merkle_path }@;
            concurrent_has(state->header, state->coinbase_tx, state->merkle_path)
        }),
{
    match (header, coinbase_tx, merkle_path) {
        (Some(header), Some(coinbase_tx), Some(merkle_path)) => (
            ConcurrentState::Done,
            FetchAction::Finish(Ok(TemplateData { header, coinbase_tx, merkle_path })),
        ),
        (header, coinbase_tx, merkle_path) => (
            ConcurrentState::Getting { header, coinbase_tx, merkle_path },
            FetchAction::KeepWaiting,
        ),
    }
}

/// Takes a concurrent fetch from one await to the next.
pub fn fetch_template_concurrent(
    ctx: &IpcContext,
    threads: &FetchThreads,
    state: ConcurrentState,
    event: FetchEvent,
) -> (step: (ConcurrentState, FetchAction))
    ensures
        (step.0@, step.1@) == concurrent_step(*ctx, *threads, state@, event),
        state matches ConcurrentState::Getting { header: None, .. } ==> (event matches
            FetchEvent::Header(Ok(bytes)) ==> ((step.1 matches FetchAction::Finish(Err(_)))
            <==> bytes@.len() != crate::decode::HEADER_SIZE)),
{
    let template = ctx.block_template_client;
    match (state, event) {
        (ConcurrentState::Starting, FetchEvent::Started) => (
            ConcurrentState::Getting { header: None, coinbase_tx: None, merkle_path: None },
            FetchAction::GetAll {
                header: TemplateCall { template, thread: threads.header },
                coinbase_tx: TemplateCall { template, thread: threads.coinbase_tx },
                merkle_path: TemplateCall { template, thread: threads.merkle_path },
            },
        ),
        (
            ConcurrentState::Getting { header: None, coinbase_tx, merkle_path },
            FetchEvent::Header(reply),
        ) => match read_header(reply) {
            Ok(header) => finish_if_complete(Some(header), coinbase_tx, merkle_path),
            Err(error) => (ConcurrentState::Done, FetchAction::Finish(Err(error))),
        },
        (
            ConcurrentState::Getting { header, coinbase_tx: None, merkle_path },
            FetchEvent::CoinbaseTx(reply),
        ) => match read_coinbase_tx(reply) {
            Ok(coinbase_tx) => finish_if_complete(header, Some(coinbase_tx), merkle_path),
            Err(error) => (ConcurrentState::Done, FetchAction::Finish(Err(error))),
        },
        (
            ConcurrentState::Getting { header, coinbase_tx, merkle_path: None },
            FetchEvent::MerklePath(reply),
        ) => match read_merkle_path(reply) {
            Ok(merkle_path) => finish_if_complete(header, coinbase_tx, Some(merkle_path)),
            Err(error) => (ConcurrentState::Done, FetchAction::Finish(Err(error))),
        },
        (state, _) => (state, FetchAction::KeepWaiting),
    }
}

} // verus!
