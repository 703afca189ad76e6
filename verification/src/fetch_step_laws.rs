//! What a fetch makes of each answer of the node.
use crate::context::IpcContext;
use crate::error::IpcError;
use crate::fetch::{
    ConcurrentStateView, FetchActionView, FetchEvent, FetchThreads, SequentialStateView,
    TemplateCall, TemplateDataView,
};
use crate::types::{BlockHeader, Capability, TransactionView};
use vstd::prelude::*;

verus! {

/// The header in an answer is the one that its bytes encode. Bytes that encode none give
/// the error of decoding those bytes, and a failed call gives its own.
pub proof fn law_header_answer(reply: Result<Vec<u8>, capnp::Error>)
    ensures
        match crate::fetch::header_reply(reply) {
            Ok(header) => reply matches Ok(bytes) && crate::decode::encodes_header(bytes@, header),
            Err(IpcError::Decode(error)) => reply matches Ok(bytes) && error
                == crate::decode::header_error(bytes@) && forall|header: BlockHeader|
                !#[trigger] crate::decode::encodes_header(bytes@, header),
            Err(IpcError::Capnp(error)) => reply == Err::<Vec<u8>, _>(error),
            Err(IpcError::Connect(_)) => false,
        },
{
}

/// The coinbase transaction in an answer is the one that its bytes encode. Bytes that
/// encode none give the error of decoding those bytes, and a failed call gives its own.
pub proof fn law_coinbase_answer(reply: Result<Vec<u8>, capnp::Error>)
    ensures
        match crate::fetch::coinbase_reply(reply) {
            Ok(tx) => reply matches Ok(bytes) && crate::decode::encodes_transaction(bytes@, tx),
            Err(IpcError::Decode(error)) => reply matches Ok(bytes) && error
                == crate::decode::deserialized_transaction(bytes@, usize::BITS)->Err_0 && forall|
                tx: TransactionView,
            |
                !#[trigger] crate::decode::encodes_transaction(bytes@, tx),
            Err(IpcError::Capnp(error)) => reply == Err::<Vec<u8>, _>(error),
            Err(IpcError::Connect(_)) => false,
        },
{
}

/// The merkle path in an answer holds every hash of it, in order. One hash that cannot be
/// read gives its error, the first of them if there are more, and a failed call its own.
pub proof fn law_merkle_answer(
    reply: Result<Vec<Result<Vec<u8>, capnp::Error>>, capnp::Error>,
)
    ensures
        match crate::fetch::merkle_reply(reply) {
            Ok(path) => reply matches Ok(items) && path.len() == items@.len() && forall|i: int|
                0 <= i < items@.len() ==> (#[trigger] items@[i] matches Ok(item) && item@
                    == path[i]),
            Err(IpcError::Capnp(error)) => match reply {
                Ok(items) => exists|at: int|
                    0 <= at < items@.len() && #[trigger] items@[at] == Err::<Vec<u8>, _>(error)
                        && forall|i: int| 0 <= i < at ==> #[trigger] items@[i] is Ok,
                Err(failed) => error == failed,
            },
            Err(_) => false,
        },
{
    if let Ok(items) = reply {
        lemma_readable_items(items@);
    }
}

/// What the list of a merkle path comes to.
proof fn lemma_readable_items(items: Seq<Result<Vec<u8>, capnp::Error>>)
    ensures
        match crate::decode::readable_items(items) {
            Ok(path) => path.len() == items.len() && forall|i: int|
                0 <= i < items.len() ==> (#[trigger] items[i] matches Ok(item) && item@ == path[i]),
            Err(error) => exists|at: int|
                0 <= at < items.len() && #[trigger] items[at] == Err::<Vec<u8>, _>(error)
                    && forall|i: int| 0 <= i < at ==> #[trigger] items[i] is Ok,
        },
{
    if !(forall|i: int| 0 <= i < items.len() ==> #[trigger] items[i] is Ok) {
        let some = choose|i: int| 0 <= i < items.len() && !(#[trigger] items[i] is Ok);
        lemma_first_unreadable(items, some);
        let at = choose|at: int| crate::decode::first_unreadable(items, at);
        assert(items[at] == Err::<Vec<u8>, _>(items[at]->Err_0));
    }
}

/// Where one item cannot be read, there is a first such item.
proof fn lemma_first_unreadable(items: Seq<Result<Vec<u8>, capnp::Error>>, some: int)
    requires
        0 <= some < items.len(),
        items[some] is Err,
    ensures
        exists|at: int| crate::decode::first_unreadable(items, at),
    decreases some,
{
    if exists|i: int| 0 <= i < some && items[i] is Err {
        let earlier = choose|i: int| 0 <= i < some && items[i] is Err;
        lemma_first_unreadable(items, earlier);
    } else {
        assert(crate::decode::first_unreadable(items, some));
    }
}

/// The list of a merkle path is collected whole and in order, or not at all: then the
/// first item that cannot be read is the reason.
pub proof fn law_merkle_path_is_whole(items: Seq<Result<Vec<u8>, capnp::Error>>)
    ensures
        crate::decode::readable_items(items) is Ok <==> forall|i: int|
            0 <= i < items.len() ==> #[trigger] items[i] is Ok,
        crate::decode::readable_items(items) matches Ok(path) ==> path.len() == items.len()
            && forall|i: int|
            0 <= i < items.len() ==> #[trigger] path[i] == (items[i]->Ok_0)@,
        crate::decode::readable_items(items) matches Err(error) ==> exists|at: int|
            0 <= at < items.len() && #[trigger] items[at] == Err::<Vec<u8>, _>(error) && forall|
                i: int,
            |
                0 <= i < at ==> #[trigger] items[i] is Ok,
{
    lemma_readable_items(items);
}

/// A sequential fetch asks its context's thread map for a thread first.
pub proof fn law_sequential_fetch_begins_with_a_thread(ctx: IpcContext)
    ensures
        crate::fetch::sequential_step(ctx, SequentialStateView::Starting, FetchEvent::Started) == (
            SequentialStateView::MakingThread,
            FetchActionView::MakeThread { thread_map: ctx.thread_map },
        ),
{
}

/// On the thread that was made, a sequential fetch asks for the header; without one it
/// ends with the node's error.
pub proof fn law_sequential_fetch_then_asks_for_the_header(
    ctx: IpcContext,
    thread: Capability,
    error: capnp::Error,
)
    ensures
        crate::fetch::sequential_step(
            ctx,
            SequentialStateView::MakingThread,
            FetchEvent::ThreadMade(Ok(thread)),
        ) == (
            SequentialStateView::GettingHeader { thread },
            FetchActionView::GetBlockHeader(
                TemplateCall { template: ctx.block_template_client, thread },
            ),
        ),
        crate::fetch::sequential_step(
            ctx,
            SequentialStateView::MakingThread,
            FetchEvent::ThreadMade(Err(error)),
        ) == (
            SequentialStateView::Done,
            FetchActionView::Finish(Err::<TemplateDataView, _>(IpcError::Capnp(error))),
        ),
{
}

/// A header that can be read is kept, and the coinbase transaction is asked for on the
/// same thread; else the fetch ends with what is wrong with the answer.
pub proof fn law_sequential_fetch_takes_the_header(
    ctx: IpcContext,
    thread: Capability,
    reply: Result<Vec<u8>, capnp::Error>,
)
    ensures
        crate::fetch::sequential_step(
            ctx,
            SequentialStateView::GettingHeader { thread },
            FetchEvent::Header(reply),
        ) == match crate::fetch::header_reply(reply) {
            Ok(header) => (
                SequentialStateView::GettingCoinbaseTx { thread, header },
                FetchActionView::GetCoinbaseTx(
                    TemplateCall { template: ctx.block_template_client, thread },
                ),
            ),
            Err(failure) => (
                SequentialStateView::Done,
                FetchActionView::Finish(Err::<TemplateDataView, _>(failure)),
            ),
        },
{
}

/// A coinbase transaction that can be read is kept beside the header, and the merkle path
/// is asked for on the same thread; else the fetch ends with what is wrong with the answer.
pub proof fn law_sequential_fetch_takes_the_coinbase_tx(
    ctx: IpcContext,
    thread: Capability,
    header: BlockHeader,
    reply: Result<Vec<u8>, capnp::Error>,
)
    ensures
        crate::fetch::sequential_step(
            ctx,
            SequentialStateView::GettingCoinbaseTx { thread, header },
            FetchEvent::CoinbaseTx(reply),
        ) == match crate::fetch::coinbase_reply(reply) {
            Ok(coinbase_tx) => (
                SequentialStateView::GettingMerklePath { header, coinbase_tx },
                FetchActionView::GetCoinbaseMerklePath(
                    TemplateCall { template: ctx.block_template_client, thread },
                ),
            ),
            Err(failure) => (
                SequentialStateView::Done,
                FetchActionView::Finish(Err::<TemplateDataView, _>(failure)),
            ),
        },
{
}

/// With a merkle path that can be read a sequential fetch ends with all three; else with
/// what is wrong with the answer.
pub proof fn law_sequential_fetch_ends_with_all_three(
    ctx: IpcContext,
    header: BlockHeader,
    coinbase_tx: TransactionView,
    reply: Result<Vec<Result<Vec<u8>, capnp::Error>>, capnp::Error>,
)
    ensures
        ({
            let step = crate::fetch::sequential_step(
                ctx,
                SequentialStateView::GettingMerklePath { header, coinbase_tx },
                FetchEvent::MerklePath(reply),
            );
            &&& step.0 is Done
            &&& match crate::fetch::merkle_reply(reply) {
                Ok(merkle_path) => step.1 == FetchActionView::Finish(
                    Ok::<_, IpcError>(TemplateDataView { header, coinbase_tx, merkle_path }),
                ),
                Err(failure) => step.1 == FetchActionView::Finish(
                    Err::<TemplateDataView, _>(failure),
                ),
            }
        }),
{
}

/// What is no answer to what a sequential fetch awaits changes nothing.
pub proof fn law_sequential_fetch_passes_over_the_rest(
    ctx: IpcContext,
    state: SequentialStateView,
    event: FetchEvent,
)
    requires
        event is Started ==> !(state is Starting),
        event is ThreadMade ==> !(state is MakingThread),
        event is Header ==> !(state is GettingHeader),
        event is CoinbaseTx ==> !(state is GettingCoinbaseTx),
        event is MerklePath ==> !(state is GettingMerklePath),
    ensures
        crate::fetch::sequential_step(ctx, state, event) == (state, FetchActionView::KeepWaiting),
{
}

/// A concurrent fetch makes its three calls at once, to the template of its context, each
/// on the thread that was given for it, and has nothing yet.
pub proof fn law_concurrent_fetch_begins_with_all_calls(ctx: IpcContext, threads: FetchThreads)
    ensures
        ({
            let step = crate::fetch::concurrent_step(
                ctx,
                threads,
                ConcurrentStateView::Starting,
                FetchEvent::Started,
            );
            &&& step.0 == (ConcurrentStateView::Getting {
                header: None,
                coinbase_tx: None,
                merkle_path: None,
            })
            &&& step.1 matches FetchActionView::GetAll { header, coinbase_tx, merkle_path }
                && header.template == ctx.block_template_client && coinbase_tx.template
                == ctx.block_template_client && merkle_path.template == ctx.block_template_client
                && header.thread == threads.header && coinbase_tx.thread == threads.coinbase_tx
                && merkle_path.thread == threads.merkle_path
        }),
{
}

/// A concurrent fetch with some of its three parts ends with them just when it has them
/// all; else it keeps what it has and waits for the rest.
pub proof fn law_concurrent_fetch_is_done_with_all_three(
    header: Option<BlockHeader>,
    coinbase_tx: Option<TransactionView>,
    merkle_path: Option<Seq<Seq<u8>>>,
)
    ensures
        crate::fetch::concurrent_has(header, coinbase_tx, merkle_path) == match (
            header,
            coinbase_tx,
            merkle_path,
        ) {
            (Some(header), Some(coinbase_tx), Some(merkle_path)) => (
                ConcurrentStateView::Done,
                FetchActionView::Finish(
                    Ok::<_, IpcError>(TemplateDataView { header, coinbase_tx, merkle_path }),
                ),
            ),
            _ => (
                ConcurrentStateView::Getting { header, coinbase_tx, merkle_path },
                FetchActionView::KeepWaiting,
            ),
        },
{
}

/// A header that can be read adds to what a concurrent fetch has, and loses nothing of it;
/// the fetch is done when that was the last part. One that cannot be read ends the fetch
/// at once, with what is wrong with it.
pub proof fn law_concurrent_fetch_takes_the_header(
    ctx: IpcContext,
    threads: FetchThreads,
    coinbase_tx: Option<TransactionView>,
    merkle_path: Option<Seq<Seq<u8>>>,
    reply: Result<Vec<u8>, capnp::Error>,
)
    ensures
        ({
            let step = crate::fetch::concurrent_step(
                ctx,
                threads,
                ConcurrentStateView::Getting { header: None, coinbase_tx, merkle_path },
                FetchEvent::Header(reply),
            );
            match (crate::fetch::header_reply(reply), coinbase_tx, merkle_path) {
                (Err(failure), _, _) => {
                    &&& step.0 is Done
                    &&& step.1 == FetchActionView::Finish(Err::<TemplateDataView, _>(failure))
                },
                (Ok(header), Some(coinbase_tx), Some(merkle_path)) => {
                    &&& step.0 is Done
                    &&& step.1 == FetchActionView::Finish(
                        Ok::<_, IpcError>(TemplateDataView { header, coinbase_tx, merkle_path }),
                    )
                },
                (Ok(header), _, _) => {
                    &&& step.0 == (ConcurrentStateView::Getting {
                        header: Some(header), coinbase_tx, merkle_path,
                    })
                    &&& step.1 is KeepWaiting
                },
            }
        }),
{
}

/// The same of the coinbase transaction.
pub proof fn law_concurrent_fetch_takes_the_coinbase_tx(
    ctx: IpcContext,
    threads: FetchThreads,
    header: Option<BlockHeader>,
    merkle_path: Option<Seq<Seq<u8>>>,
    reply: Result<Vec<u8>, capnp::Error>,
)
    ensures
        ({
            let step = crate::fetch::concurrent_step(
                ctx,
                threads,
                ConcurrentStateView::Getting { header, coinbase_tx: None, merkle_path },
                FetchEvent::CoinbaseTx(reply),
            );
            match (crate::fetch::coinbase_reply(reply), header, merkle_path) {
                (Err(failure), _, _) => {
                    &&& step.0 is Done
                    &&& step.1 == FetchActionView::Finish(Err::<TemplateDataView, _>(failure))
                },
                (Ok(coinbase_tx), Some(header), Some(merkle_path)) => {
                    &&& step.0 is Done
                    &&& step.1 == FetchActionView::Finish(
                        Ok::<_, IpcError>(TemplateDataView { header, coinbase_tx, merkle_path }),
                    )
                },
                (Ok(coinbase_tx), _, _) => {
                    &&& step.0 == (ConcurrentStateView::Getting {
                        header, coinbase_tx: Some(coinbase_tx), merkle_path,
                    })
                    &&& step.1 is KeepWaiting
                },
            }
        }),
{
}

/// The same of the merkle path.
pub proof fn law_concurrent_fetch_takes_the_merkle_path(
    ctx: IpcContext,
    threads: FetchThreads,
    header: Option<BlockHeader>,
    coinbase_tx: Option<TransactionView>,
    reply: Result<Vec<Result<Vec<u8>, capnp::Error>>, capnp::Error>,
)
    ensures
        ({
            let step = crate::fetch::concurrent_step(
                ctx,
                threads,
                ConcurrentStateView::Getting { header, coinbase_tx, merkle_path: None },
                FetchEvent::MerklePath(reply),
            );
            match (crate::fetch::merkle_reply(reply), header, coinbase_tx) {
                (Err(failure), _, _) => {
                    &&& step.0 is Done
                    &&& step.1 == FetchActionView::Finish(Err::<TemplateDataView, _>(failure))
                },
                (Ok(merkle_path), Some(header), Some(coinbase_tx)) => {
                    &&& step.0 is Done
                    &&& step.1 == FetchActionView::Finish(
                        Ok::<_, IpcError>(TemplateDataView { header, coinbase_tx, merkle_path }),
                    )
                },
                (Ok(merkle_path), _, _) => {
                    &&& step.0 == (ConcurrentStateView::Getting {
                        header, coinbase_tx, merkle_path: Some(merkle_path),
                    })
                    &&& step.1 is KeepWaiting
                },
            }
        }),
{
}

/// What is no answer to what a concurrent fetch still lacks changes nothing.
pub proof fn law_concurrent_fetch_passes_over_the_rest(
    ctx: IpcContext,
    threads: FetchThreads,
    state: ConcurrentStateView,
    event: FetchEvent,
)
    requires
        event is Started ==> !(state is Starting),
        event is Header ==> !(state matches ConcurrentStateView::Getting { header, .. } && header
            is None),
        event is CoinbaseTx ==> !(state matches ConcurrentStateView::Getting { coinbase_tx, .. }
            && coinbase_tx is None),
        event is MerklePath ==> !(state matches ConcurrentStateView::Getting { merkle_path, .. }
            && merkle_path is None),
    ensures
        crate::fetch::concurrent_step(ctx, threads, state, event) == (
            state,
            FetchActionView::KeepWaiting,
        ),
{
}

/// The order in which two answers arrive that can both be read makes no difference to
/// what a concurrent fetch then has.
pub proof fn law_answers_commute(
    ctx: IpcContext,
    threads: FetchThreads,
    merkle_path: Option<Seq<Seq<u8>>>,
    header_reply: Result<Vec<u8>, capnp::Error>,
    coinbase_reply: Result<Vec<u8>, capnp::Error>,
)
    requires
        crate::fetch::header_reply(header_reply) is Ok,
        crate::fetch::coinbase_reply(coinbase_reply) is Ok,
    ensures
        ({
            let start = ConcurrentStateView::Getting {
                header: None,
                coinbase_tx: None,
                merkle_path,
            };
            let header_first = crate::fetch::concurrent_step(
                ctx,
                threads,
                start,
                FetchEvent::Header(header_reply),
            ).0;
            let coinbase_first = crate::fetch::concurrent_step(
                ctx,
                threads,
                start,
                FetchEvent::CoinbaseTx(coinbase_reply),
            ).0;
            crate::fetch::concurrent_step(
                ctx,
                threads,
                header_first,
                FetchEvent::CoinbaseTx(coinbase_reply),
            ) == crate::fetch::concurrent_step(
                ctx,
                threads,
                coinbase_first,
                FetchEvent::Header(header_reply),
            )
        }),
{
}

} // verus!
