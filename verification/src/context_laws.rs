//! What each request on the way to a context asks for, and whom.
use crate::context::{
    BlockCreateOptions, ConnectAction, ConnectEvent, ConnectState, ConnectStep, IpcContext,
    BLOCK_RESERVED_WEIGHT,
};
use crate::error::IpcError;
use crate::types::Capability;
use std::path::PathBuf;
use vstd::prelude::*;

verus! {

/// The way begins with the socket that the caller names.
pub proof fn law_named_socket_is_opened(unix_socket_path: PathBuf)
    ensures
        crate::context::connect_step(
            ConnectState::Starting,
            ConnectEvent::Started(unix_socket_path),
        ) == (ConnectStep {
            state: ConnectState::Connecting,
            action: ConnectAction::Connect { unix_socket_path },
        }),
{
}

/// An open socket leads to the request for the thread map; one that does not open ends
/// the way with the reason.
pub proof fn law_socket_leads_to_the_thread_map(error: std::io::Error)
    ensures
        crate::context::connect_step(
            ConnectState::Connecting,
            ConnectEvent::Connected(Ok(())),
        ) == (ConnectStep {
            state: ConnectState::Constructing,
            action: ConnectAction::Construct,
        }),
        crate::context::connect_step(
            ConnectState::Connecting,
            ConnectEvent::Connected(Err(error)),
        ) == (ConnectStep {
            state: ConnectState::Done,
            action: ConnectAction::Finish(Err(IpcError::Connect(error))),
        }),
{
}

/// The thread map that the node hands out is asked for a thread, whatever its number.
pub proof fn law_thread_map_is_asked_for_a_thread(thread_map: Capability)
    ensures
        crate::context::connect_step(
            ConnectState::Constructing,
            ConnectEvent::Constructed(Ok(thread_map)),
        ) == (ConnectStep {
            state: ConnectState::MakingThread { thread_map },
            action: ConnectAction::MakeThread { thread_map },
        }),
{
}

/// The mining interface is asked for on the thread that was just made, whatever the
/// numbers are, and the thread map is not lost.
pub proof fn law_mining_is_asked_for_on_the_new_thread(thread_map: Capability, thread: Capability)
    ensures
        crate::context::connect_step(
            ConnectState::MakingThread { thread_map },
            ConnectEvent::ThreadMade(Ok(thread)),
        ) == (ConnectStep {
            state: ConnectState::MakingMining { thread_map },
            action: ConnectAction::MakeMining { thread },
        }),
{
}

/// A template is asked of the mining interface that was just handed out, whatever the
/// numbers are: with a weight of 2000 kept free, no additional signature operations, and
/// transactions of the mempool.
pub proof fn law_template_is_asked_for_from_the_mempool(
    thread_map: Capability,
    handed_out: Capability,
)
    ensures
        ({
            let step = crate::context::connect_step(
                ConnectState::MakingMining { thread_map },
                ConnectEvent::MiningMade(Ok(handed_out)),
            );
            &&& step.state == (ConnectState::CreatingTemplate {
                thread_map,
                mining_client: handed_out,
            })
            &&& step.action matches ConnectAction::CreateNewBlock { mining_client, options }
                && mining_client == handed_out && options.block_reserved_weight == 2000
                && options.coinbase_output_max_additional_sigops == 0 && options.use_mempool
        }),
        BLOCK_RESERVED_WEIGHT == 2000,
{
}

/// No step of the way asks for a template in any other manner, or at any other time.
pub proof fn law_every_template_is_asked_for_alike(
    state: ConnectState,
    event: ConnectEvent,
    mining_client: Capability,
    options: BlockCreateOptions,
)
    requires
        crate::context::connect_step(state, event).action == (ConnectAction::CreateNewBlock {
            mining_client,
            options,
        }),
    ensures
        state is MakingMining,
        event == ConnectEvent::MiningMade(Ok(mining_client)),
        options == (BlockCreateOptions {
            block_reserved_weight: 2000,
            coinbase_output_max_additional_sigops: 0,
            use_mempool: true,
        }),
{
}

/// The context holds the thread map, the mining interface and the template that the node
/// handed out, each in its place.
pub proof fn law_context_is_complete(
    thread_map: Capability,
    mining_client: Capability,
    block_template_client: Capability,
)
    ensures
        crate::context::connect_step(
            ConnectState::CreatingTemplate { thread_map, mining_client },
            ConnectEvent::TemplateCreated(Ok(block_template_client)),
        ) == (ConnectStep {
            state: ConnectState::Done,
            action: ConnectAction::Finish(
                Ok(IpcContext { thread_map, mining_client, block_template_client }),
            ),
        }),
{
}

/// The first request that the node does not meet ends the way with the node's own error.
pub proof fn law_failed_request_ends_the_way(
    state: ConnectState,
    event: ConnectEvent,
    error: capnp::Error,
)
    requires
        (state is Constructing && event == ConnectEvent::Constructed(Err(error))) || (state
            is MakingThread && event == ConnectEvent::ThreadMade(Err(error))) || (state
            is MakingMining && event == ConnectEvent::MiningMade(Err(error))) || (state
            is CreatingTemplate && event == ConnectEvent::TemplateCreated(Err(error))),
    ensures
        crate::context::connect_step(state, event) == (ConnectStep {
            state: ConnectState::Done,
            action: ConnectAction::Finish(Err(IpcError::Capnp(error))),
        }),
{
}

/// What is no answer to what is awaited changes nothing.
pub proof fn law_way_passes_over_the_rest(state: ConnectState, event: ConnectEvent)
    requires
        event is Started ==> !(state is Starting),
        event is Connected ==> !(state is Connecting),
        event is Constructed ==> !(state is Constructing),
        event is ThreadMade ==> !(state is MakingThread),
        event is MiningMade ==> !(state is MakingMining),
        event is TemplateCreated ==> !(state is CreatingTemplate),
    ensures
        crate::context::connect_step(state, event) == (ConnectStep {
            state,
            action: ConnectAction::KeepWaiting,
        }),
{
}

/// The answer to a request for a thread is handed on as it came.
pub proof fn law_thread_reply_is_handed_on(thread: Capability, error: capnp::Error)
    ensures
        crate::context::thread_reply(Ok(thread)) == Ok::<_, IpcError>(thread),
        crate::context::thread_reply(Err(error)) == Err::<Capability, _>(IpcError::Capnp(error)),
{
}

} // verus!
