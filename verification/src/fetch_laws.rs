//! What holds of whole fetches and of the way to a context.
use crate::context::{ConnectAction, ConnectEvent, ConnectState, IpcContext};
use crate::error::IpcError;
use crate::fetch::{
    ConcurrentStateView, FetchActionView, FetchEvent, FetchThreads, SequentialStateView,
    TemplateCall, TemplateDataView,
};
use crate::types::Capability;
use vstd::prelude::*;

verus! {

/// What a sequential fetch in `state` ends with when `events` come one after the other.
pub open spec fn sequential_outcome(
    ctx: IpcContext,
    state: SequentialStateView,
    events: Seq<FetchEvent>,
) -> Option<Result<TemplateDataView, IpcError>>
    decreases events.len(),
{
    if events.len() == 0 {
        None
    } else {
        let step = crate::fetch::sequential_step(ctx, state, events[0]);
        match step.1 {
            FetchActionView::Finish(outcome) => Some(outcome),
            _ => sequential_outcome(ctx, step.0, events.drop_first()),
        }
    }
}

/// What a concurrent fetch in `state` ends with when `events` come one after the other.
pub open spec fn concurrent_outcome(
    ctx: IpcContext,
    threads: FetchThreads,
    state: ConcurrentStateView,
    events: Seq<FetchEvent>,
) -> Option<Result<TemplateDataView, IpcError>>
    decreases events.len(),
{
    if events.len() == 0 {
        None
    } else {
        let step = crate::fetch::concurrent_step(ctx, threads, state, events[0]);
        match step.1 {
            FetchActionView::Finish(outcome) => Some(outcome),
            _ => concurrent_outcome(ctx, threads, step.0, events.drop_first()),
        }
    }
}

/// The node's answers to the three calls of a fetch.
pub struct Replies {
    pub header: Result<Vec<u8>, capnp::Error>,
    pub coinbase_tx: Result<Vec<u8>, capnp::Error>,
    pub merkle_path: Result<Vec<Result<Vec<u8>, capnp::Error>>, capnp::Error>,
}

impl Replies {
    /// The arrival of each answer.
    pub open spec fn arrivals(self) -> Seq<FetchEvent> {
        seq![
            FetchEvent::Header(self.header),
            FetchEvent::CoinbaseTx(self.coinbase_tx),
            FetchEvent::MerklePath(self.merkle_path),
        ]
    }

    /// Every answer can be read.
    pub open spec fn readable(self) -> bool {
        forall|i: int| 0 <= i < 3 ==> #[trigger] failure_of(self.arrivals()[i]) is None
    }

    /// The data that answers that can be read amount to.
    pub open spec fn data(self) -> TemplateDataView {
        TemplateDataView {
            header: crate::fetch::header_reply(self.header)->Ok_0,
            coinbase_tx: crate::fetch::coinbase_reply(self.coinbase_tx)->Ok_0,
            merkle_path: crate::fetch::merkle_reply(self.merkle_path)->Ok_0,
        }
    }
}

/// What is wrong with the answer that `event` brings.
pub open spec fn failure_of(event: FetchEvent) -> Option<IpcError> {
    match event {
        FetchEvent::Header(reply) => match crate::fetch::header_reply(reply) {
            Ok(_) => None,
            Err(failure) => Some(failure),
        },
        FetchEvent::CoinbaseTx(reply) => match crate::fetch::coinbase_reply(reply) {
            Ok(_) => None,
            Err(failure) => Some(failure),
        },
        FetchEvent::MerklePath(reply) => match crate::fetch::merkle_reply(reply) {
            Ok(_) => None,
            Err(failure) => Some(failure),
        },
        _ => None,
    }
}

/// The outcome of answers that arrive in the order `order`: the data, or what is wrong
/// with the first that cannot be read.
pub open spec fn outcome_in_order(replies: Replies, order: Seq<FetchEvent>) -> Result<
    TemplateDataView,
    IpcError,
> {
    if failure_of(order[0]) is Some {
        Err(failure_of(order[0])->0)
    } else if failure_of(order[1]) is Some {
        Err(failure_of(order[1])->0)
    } else if failure_of(order[2]) is Some {
        Err(failure_of(order[2])->0)
    } else {
        Ok(replies.data())
    }
}

/// A sequential fetch ends with the data of the three answers, or with what is wrong
/// with the first call in its own order that failed.
pub proof fn law_sequential_fetch(ctx: IpcContext, thread: Capability, replies: Replies)
    ensures
        sequential_outcome(
            ctx,
            SequentialStateView::Starting,
            seq![FetchEvent::Started, FetchEvent::ThreadMade(Ok(thread))] + replies.arrivals(),
        ) == Some(outcome_in_order(replies, replies.arrivals())),
{
    let events = seq![FetchEvent::Started, FetchEvent::ThreadMade(Ok(thread))]
        + replies.arrivals();
    reveal_with_fuel(sequential_outcome, 6);
    assert(events.drop_first()[0] == events[1]);
    assert(events.drop_first().drop_first() =~= replies.arrivals());
    assert(replies.arrivals().drop_first()[0] == replies.arrivals()[1]);
    assert(replies.arrivals().drop_first().drop_first()[0] == replies.arrivals()[2]);
}

/// A sequential fetch without a thread ends with the reason why there is none.
pub proof fn law_sequential_fetch_without_thread(ctx: IpcContext, error: capnp::Error)
    ensures
        sequential_outcome(
            ctx,
            SequentialStateView::Starting,
            seq![FetchEvent::Started, FetchEvent::ThreadMade(Err(error))],
        ) == Some(Err::<TemplateDataView, IpcError>(IpcError::Capnp(error))),
{
    let events = seq![FetchEvent::Started, FetchEvent::ThreadMade(Err(error))];
    reveal_with_fuel(sequential_outcome, 3);
    assert(events.drop_first()[0] == events[1]);
}

/// `order` is an order in which the three answers can arrive.
pub open spec fn arrives_in(replies: Replies, order: Seq<FetchEvent>) -> bool {
    &&& order.len() == 3
    &&& forall|i: int| 0 <= i < 3 ==> order.contains(#[trigger] replies.arrivals()[i])
}

/// Where each of the three answers stands in an order of their arrival.
proof fn lemma_places(replies: Replies, order: Seq<FetchEvent>) -> (places: (int, int, int))
    requires
        arrives_in(replies, order),
    ensures
        0 <= places.0 < 3 && 0 <= places.1 < 3 && 0 <= places.2 < 3,
        places.0 != places.1 && places.1 != places.2 && places.0 != places.2,
        order[places.0] == FetchEvent::Header(replies.header),
        order[places.1] == FetchEvent::CoinbaseTx(replies.coinbase_tx),
        order[places.2] == FetchEvent::MerklePath(replies.merkle_path),
{
    let arrivals = replies.arrivals();
    assert(order.contains(arrivals[0]) && order.contains(arrivals[1]) && order.contains(
        arrivals[2],
    ));
    let header = choose|i: int| 0 <= i < 3 && order[i] == arrivals[0];
    let coinbase_tx = choose|i: int| 0 <= i < 3 && order[i] == arrivals[1];
    let merkle_path = choose|i: int| 0 <= i < 3 && order[i] == arrivals[2];
    (header, coinbase_tx, merkle_path)
}

/// A concurrent fetch ends with the data of the three answers, in whatever order they
/// arrive, or with what is wrong with the first to arrive that cannot be read.
pub proof fn law_concurrent_fetch(
    ctx: IpcContext,
    threads: FetchThreads,
    replies: Replies,
    order: Seq<FetchEvent>,
)
    requires
        arrives_in(replies, order),
    ensures
        concurrent_outcome(
            ctx,
            threads,
            ConcurrentStateView::Starting,
            seq![FetchEvent::Started] + order,
        ) == Some(outcome_in_order(replies, order)),
{
    let events = seq![FetchEvent::Started] + order;
    reveal_with_fuel(concurrent_outcome, 5);
    assert(events.drop_first() =~= order);
    assert(order.drop_first()[0] == order[1]);
    assert(order.drop_first().drop_first()[0] == order[2]);
    lemma_places(replies, order);
}

/// Both ways of fetching end with data just when every answer can be read, and then
/// with the same, in whatever order the answers arrive.
pub proof fn law_both_ways_agree(
    ctx: IpcContext,
    thread: Capability,
    threads: FetchThreads,
    replies: Replies,
    order: Seq<FetchEvent>,
)
    requires
        arrives_in(replies, order),
    ensures
        ({
            let sequential = sequential_outcome(
                ctx,
                SequentialStateView::Starting,
                seq![FetchEvent::Started, FetchEvent::ThreadMade(Ok(thread))] + replies.arrivals(),
            );
            let concurrent = concurrent_outcome(
                ctx,
                threads,
                ConcurrentStateView::Starting,
                seq![FetchEvent::Started] + order,
            );
            &&& sequential is Some && concurrent is Some
            &&& sequential->0 is Ok <==> replies.readable()
            &&& concurrent->0 is Ok <==> sequential->0 is Ok
            &&& concurrent->0 is Ok ==> concurrent == sequential && concurrent == Some(
                Ok::<_, IpcError>(replies.data()),
            )
        }),
{
    let arrivals = replies.arrivals();
    law_sequential_fetch(ctx, thread, replies);
    law_concurrent_fetch(ctx, threads, replies, order);
    lemma_places(replies, order);
    assert(replies.readable() <==> failure_of(arrivals[0]) is None && failure_of(arrivals[1])
        is None && failure_of(arrivals[2]) is None);
}

/// Nothing of the answers is lost or altered in `data`: the header and the coinbase
/// transaction are what their bytes encode and encode to those bytes again, and the
/// merkle path holds the hashes that came, in their order.
pub open spec fn keeps_all_of(data: TemplateDataView, replies: Replies) -> bool {
    &&& replies.header matches Ok(bytes) && bytes@ == crate::decode::header_bytes(data.header)
    &&& replies.coinbase_tx matches Ok(bytes) && crate::decode::encodes_transaction(
        bytes@,
        data.coinbase_tx,
    )
    &&& replies.merkle_path matches Ok(items) && items@.len() == data.merkle_path.len() && forall|
        i: int,
    |
        0 <= i < items@.len() ==> (#[trigger] items@[i] matches Ok(item) && item@
            == data.merkle_path[i])
}

/// The data of answers that can be read keeps all of them.
proof fn lemma_data_keeps_all(replies: Replies)
    requires
        replies.readable(),
    ensures
        keeps_all_of(replies.data(), replies),
{
    let arrivals = replies.arrivals();
    assert(failure_of(arrivals[0]) is None && failure_of(arrivals[1]) is None && failure_of(
        arrivals[2],
    ) is None);
    let bytes = replies.header->Ok_0;
    let header = replies.data().header;
    assert(crate::decode::encodes_header(bytes@, header));
    crate::decode::law_header_gives_its_bytes_back(bytes@, header);
}

/// The data that a fetch of either way ends with keeps all of the node's answers. The
/// coinbase transaction in it is written as the bytes that came, where `usize` has 64
/// bits.
pub proof fn law_fetched_data_keeps_the_answers(
    ctx: IpcContext,
    thread: Capability,
    threads: FetchThreads,
    replies: Replies,
    order: Seq<FetchEvent>,
    data: TemplateDataView,
)
    requires
        arrives_in(replies, order),
        sequential_outcome(
            ctx,
            SequentialStateView::Starting,
            seq![FetchEvent::Started, FetchEvent::ThreadMade(Ok(thread))] + replies.arrivals(),
        ) == Some(Ok::<_, IpcError>(data)) || concurrent_outcome(
            ctx,
            threads,
            ConcurrentStateView::Starting,
            seq![FetchEvent::Started] + order,
        ) == Some(Ok::<_, IpcError>(data)),
    ensures
        keeps_all_of(data, replies),
        crate::decode::header_bytes(data.header) == replies.header->Ok_0@,
        usize::BITS == 64 ==> crate::decode::serialized_transaction(data.coinbase_tx)
            == replies.coinbase_tx->Ok_0@,
{
    law_both_ways_agree(ctx, thread, threads, replies, order);
    lemma_data_keeps_all(replies);
}

/// A sequential fetch makes all its calls to the template of its context and on one
/// thread, the one that was made for it.
pub proof fn law_sequential_uses_one_thread(
    ctx: IpcContext,
    thread: Capability,
    header: Result<Vec<u8>, capnp::Error>,
    coinbase_tx: Result<Vec<u8>, capnp::Error>,
)
    requires
        crate::fetch::header_reply(header) is Ok,
        crate::fetch::coinbase_reply(coinbase_tx) is Ok,
    ensures
        ({
            let call = TemplateCall { template: ctx.block_template_client, thread };
            let first = crate::fetch::sequential_step(
                ctx,
                SequentialStateView::MakingThread,
                FetchEvent::ThreadMade(Ok(thread)),
            );
            let second = crate::fetch::sequential_step(ctx, first.0, FetchEvent::Header(header));
            let third = crate::fetch::sequential_step(
                ctx,
                second.0,
                FetchEvent::CoinbaseTx(coinbase_tx),
            );
            &&& first.1 == FetchActionView::GetBlockHeader(call)
            &&& second.1 == FetchActionView::GetCoinbaseTx(call)
            &&& third.1 == FetchActionView::GetCoinbaseMerklePath(call)
        }),
{
}

/// A concurrent fetch makes its three calls at once, to the template of its context and
/// each on the thread it was given for it.
pub proof fn law_concurrent_uses_its_threads(ctx: IpcContext, threads: FetchThreads)
    ensures
        crate::fetch::concurrent_step(
            ctx,
            threads,
            ConcurrentStateView::Starting,
            FetchEvent::Started,
        ).1 == (FetchActionView::GetAll {
            header: TemplateCall { template: ctx.block_template_client, thread: threads.header },
            coinbase_tx: TemplateCall {
                template: ctx.block_template_client,
                thread: threads.coinbase_tx,
            },
            merkle_path: TemplateCall {
                template: ctx.block_template_client,
                thread: threads.merkle_path,
            },
        }),
{
}

/// One call for a new thread: which object is asked, and what the caller gets.
pub struct ThreadCall {
    pub asked: Capability,
    pub outcome: Result<Capability, IpcError>,
}

/// The calls for new threads that one context makes, with the node's answers to them.
pub open spec fn thread_calls(
    ctx: IpcContext,
    replies: Seq<Result<Capability, capnp::Error>>,
) -> Seq<ThreadCall> {
    replies.map_values(
        |reply: Result<Capability, capnp::Error>| ThreadCall {
            asked: ctx.thread_map,
            outcome: crate::context::thread_reply(reply),
        },
    )
}

/// However many threads are asked for through one context, each call asks its thread map
/// once and ends with the answer to that very request, be it a thread or an error: no
/// thread is kept for a later call.
pub proof fn law_every_thread_is_made_anew(
    ctx: IpcContext,
    replies: Seq<Result<Capability, capnp::Error>>,
    i: int,
)
    requires
        0 <= i < replies.len(),
    ensures
        thread_calls(ctx, replies).len() == replies.len(),
        thread_calls(ctx, replies)[i].asked == ctx.thread_map,
        match replies[i] {
            Ok(thread) => thread_calls(ctx, replies)[i].outcome == Ok::<_, IpcError>(thread),
            Err(error) => thread_calls(ctx, replies)[i].outcome == Err::<Capability, _>(
                IpcError::Capnp(error),
            ),
        },
        forall|others: Seq<Result<Capability, capnp::Error>>|
            others.len() == replies.len() && others[i] == replies[i] ==> #[trigger] thread_calls(
                ctx,
                others,
            )[i] == thread_calls(ctx, replies)[i],
{
}

/// What the way to a context in `state` ends with when `events` come one after the other.
pub open spec fn connect_outcome(state: ConnectState, events: Seq<ConnectEvent>) -> Option<
    Result<IpcContext, IpcError>,
>
    decreases events.len(),
{
    if events.len() == 0 {
        None
    } else {
        let step = crate::context::connect_step(state, events[0]);
        match step.action {
            ConnectAction::Finish(outcome) => Some(outcome),
            _ => connect_outcome(step.state, events.drop_first()),
        }
    }
}

/// Where every request succeeds, the context holds the thread map, the mining interface
/// and the template that the node handed out.
pub proof fn law_context_holds_what_the_node_handed_out(
    unix_socket_path: std::path::PathBuf,
    thread_map: Capability,
    thread: Capability,
    mining_client: Capability,
    block_template_client: Capability,
)
    ensures
        connect_outcome(
            ConnectState::Starting,
            seq![
                ConnectEvent::Started(unix_socket_path),
                ConnectEvent::Connected(Ok(())),
                ConnectEvent::Constructed(Ok(thread_map)),
                ConnectEvent::ThreadMade(Ok(thread)),
                ConnectEvent::MiningMade(Ok(mining_client)),
                ConnectEvent::TemplateCreated(Ok(block_template_client)),
            ],
        ) == Some(
            Ok::<_, IpcError>(IpcContext { thread_map, mining_client, block_template_client }),
        ),
{
    let events = seq![
        ConnectEvent::Started(unix_socket_path),
        ConnectEvent::Connected(Ok(())),
        ConnectEvent::Constructed(Ok(thread_map)),
        ConnectEvent::ThreadMade(Ok(thread)),
        ConnectEvent::MiningMade(Ok(mining_client)),
        ConnectEvent::TemplateCreated(Ok(block_template_client)),
    ];
    reveal_with_fuel(connect_outcome, 7);
    let rest1 = events.drop_first();
    let rest2 = rest1.drop_first();
    let rest3 = rest2.drop_first();
    let rest4 = rest3.drop_first();
    let rest5 = rest4.drop_first();
    assert(rest1[0] == events[1] && rest2[0] == events[2] && rest3[0] == events[3] && rest4[0]
        == events[4] && rest5[0] == events[5]);
}

} // verus!
