//! The way from a socket to the node's newest template.
use crate::error::IpcError;
use crate::types::Capability;
use std::path::PathBuf;
use vstd::prelude::*;

verus! {

/// The weight that a template leaves free for the rest of the block.
pub const BLOCK_RESERVED_WEIGHT: u64 = 2000;

/// What is needed to talk to the node about one template.
#[derive(Clone, Copy, Debug, PartialEq, Eq, Structural)]
pub struct IpcContext {
    pub thread_map: Capability,
    pub mining_client: Capability,
    pub block_template_client: Capability,
}

/// How the node is to make a template.
#[derive(Clone, Copy, Debug, PartialEq, Eq, Structural)]
pub struct BlockCreateOptions {
    pub block_reserved_weight: u64,
    pub coinbase_output_max_additional_sigops: u64,
    pub use_mempool: bool,
}

/// What the way to a context awaits.
#[derive(Clone, Copy, Debug, PartialEq, Eq, Structural)]
pub enum ConnectState {
    /// Nothing yet.
    Starting,
    /// The socket.
    Connecting,
    /// The node's thread map.
    Constructing,
    /// A thread.
    MakingThread { thread_map: Capability },
    /// The mining interface.
    MakingMining { thread_map: Capability },
    /// A template.
    CreatingTemplate { thread_map: Capability, mining_client: Capability },
    /// Nothing any more.
    Done,
}

/// What came of an await.
#[derive(Debug)]
pub enum ConnectEvent {
    /// The way begins, at this socket.
    Started(PathBuf),
    /// The socket is open.
    Connected(Result<(), std::io::Error>),
    /// The node has handed out its thread map.
    Constructed(Result<Capability, capnp::Error>),
    /// The node has made a thread.
    ThreadMade(Result<Capability, capnp::Error>),
    /// The node has handed out its mining interface.
    MiningMade(Result<Capability, capnp::Error>),
    /// The node has made a template.
    TemplateCreated(Result<Capability, capnp::Error>),
}

/// What to do next, and await.
#[derive(Debug)]
pub enum ConnectAction {
    /// Open this socket.
    Connect { unix_socket_path: PathBuf },
    /// Ask the node for its thread map.
    Construct,
    /// Ask `thread_map` for a thread.
    MakeThread { thread_map: Capability },
    /// Ask the node for its mining interface, on `thread`.
    MakeMining { thread: Capability },
    /// Ask `mining_client` for a template.
    CreateNewBlock { mining_client: Capability, options: BlockCreateOptions },
    /// Hand out the context, or say why there is none.
    Finish(Result<IpcContext, IpcError>),
    /// Go on awaiting the same.
    KeepWaiting,
}

/// Where an event leads.
#[derive(Debug)]
pub struct ConnectStep {
    pub state: ConnectState,
    pub action: ConnectAction,
}

/// A step that leads on to `state`, by `action`.
pub open spec fn connect_goes_on(state: ConnectState, action: ConnectAction) -> ConnectStep {
    ConnectStep { state, action }
}

/// The last step.
pub open spec fn connect_done(outcome: Result<IpcContext, IpcError>) -> ConnectStep {
    ConnectStep { state: ConnectState::Done, action: ConnectAction::Finish(outcome) }
}

/// The options of every template that is asked for: some weight kept free, no room for
/// signature operations, transactions from the mempool.
pub open spec fn template_options() -> BlockCreateOptions {
    BlockCreateOptions {
        block_reserved_weight: 2000,
        coinbase_output_max_additional_sigops: 0,
        use_mempool: true,
    }
}

/// What the node's answer to a request for a thread comes to: its thread, or its error.
pub open spec fn thread_reply(reply: Result<Capability, capnp::Error>) -> Result<
    Capability,
    IpcError,
> {
    match reply {
        Ok(thread) => Ok(thread),
        Err(error) => Err(IpcError::Capnp(error)),
    }
}

/// Where `event` leads from `state`: to the next request, or at the first failure to the
/// end. An event that is not awaited changes nothing.
pub open spec fn connect_step(state: ConnectState, event: ConnectEvent) -> ConnectStep {
    match (state, event) {
        (ConnectState::Starting, ConnectEvent::Started(unix_socket_path)) => connect_goes_on(
            ConnectState::Connecting,
            ConnectAction::Connect { unix_socket_path },
        ),
        (ConnectState::Connecting, ConnectEvent::Connected(Ok(_))) => connect_goes_on(
            ConnectState::Constructing,
            ConnectAction::Construct,
        ),
        (ConnectState::Connecting, ConnectEvent::Connected(Err(error))) => connect_done(
            Err(IpcError::Connect(error)),
        ),
        (ConnectState::Constructing, ConnectEvent::Constructed(Ok(thread_map))) => {
            connect_goes_on(
                ConnectState::MakingThread { thread_map },
                ConnectAction::MakeThread { thread_map },
            )
        },
        (ConnectState::Constructing, ConnectEvent::Constructed(Err(error))) => connect_done(
            Err(IpcError::Capnp(error)),
        ),
        (ConnectState::MakingThread { thread_map }, ConnectEvent::ThreadMade(made)) => {
            match thread_reply(made) {
                Ok(thread) => connect_goes_on(
                    ConnectState::MakingMining { thread_map },
                    ConnectAction::MakeMining { thread },
                ),
                Err(error) => connect_done(Err(error)),
            }
        },
        (
            ConnectState::MakingMining { thread_map },
            ConnectEvent::MiningMade(Ok(mining_client)),
        ) => connect_goes_on(
            ConnectState::CreatingTemplate { thread_map, mining_client },
            ConnectAction::CreateNewBlock { mining_client, options: template_options() },
        ),
        (ConnectState::MakingMining { .. }, ConnectEvent::MiningMade(Err(error))) => connect_done(
            Err(IpcError::Capnp(error)),
        ),
        (
            ConnectState::CreatingTemplate { thread_map, mining_client },
            ConnectEvent::TemplateCreated(Ok(block_template_client)),
        ) => connect_done(Ok(IpcContext { thread_map, mining_client, block_template_client })),
        (ConnectState::CreatingTemplate { .. }, ConnectEvent::TemplateCreated(Err(error))) => {
            connect_done(Err(IpcError::Capnp(error)))
        },
        _ => connect_goes_on(state, ConnectAction::KeepWaiting),
    }
}

impl ConnectStep {
    /// Leads on.
    fn go_on(state: ConnectState, action: ConnectAction) -> (res: Self)
        ensures
            res == connect_goes_on(state, action),
    {
        ConnectStep { state, action }
    }

    /// Ends.
    fn done(outcome: Result<IpcContext, IpcError>) -> (res: Self)
        ensures
            res == connect_done(outcome),
    {
        ConnectStep { state: ConnectState::Done, action: ConnectAction::Finish(outcome) }
    }
}

/// Hands on the node's answer to a request for a thread.
pub fn thread_made(reply: Result<Capability, capnp::Error>) -> (res: Result<Capability, IpcError>)
    ensures
        res == thread_reply(reply),
        res == match reply {
            Ok(thread) => Ok::<_, IpcError>(thread),
            Err(error) => Err::<Capability, _>(IpcError::Capnp(error)),
        },
{
    match reply {
        Ok(thread) => Ok(thread),
        Err(error) => Err(IpcError::Capnp(error)),
    }
}

impl IpcContext {
    /// Goes on towards a context, from one await to the next.
    pub fn new(state: ConnectState, event: ConnectEvent) -> (step: ConnectStep)
        ensures
            step == connect_step(state, event),
    {
        match (state, event) {
            (ConnectState::Starting, ConnectEvent::Started(unix_socket_path)) => {
                ConnectStep::go_on(
                    ConnectState::Connecting,
                    ConnectAction::Connect { unix_socket_path },
                )
            },
            (ConnectState::Connecting, ConnectEvent::Connected(connected)) => match connected {
                Ok(_) => ConnectStep::go_on(ConnectState::Constructing, ConnectAction::Construct),
                Err(error) => ConnectStep::done(Err(IpcError::Connect(error))),
            },
            (ConnectState::Constructing, ConnectEvent::Constructed(constructed)) => {
                match constructed {
                    Ok(thread_map) => ConnectStep::go_on(
                        ConnectState::MakingThread { thread_map },
                        ConnectAction::MakeThread { thread_map },
                    ),
                    Err(error) => ConnectStep::done(Err(IpcError::Capnp(error))),
                }
            },
            (ConnectState::MakingThread { thread_map }, ConnectEvent::ThreadMade(made)) => {
                match thread_made(made) {
                    Ok(thread) => ConnectStep::go_on(
                        ConnectState::MakingMining { thread_map },
                        ConnectAction::MakeMining { thread },
                    ),
                    Err(error) => ConnectStep::done(Err(error)),
                }
            },
            (ConnectState::MakingMining { thread_map }, ConnectEvent::MiningMade(made)) => {
                match made {
                    Ok(mining_client) => ConnectStep::go_on(
                        ConnectState::CreatingTemplate { thread_map, mining_client },
                        ConnectAction::CreateNewBlock {
                            mining_client,
                            options: BlockCreateOptions {
                                block_reserved_weight: BLOCK_RESERVED_WEIGHT,
                                coinbase_output_max_additional_sigops: 0,
                                use_mempool: true,
                            },
                        },
                    ),
                    Err(error) => ConnectStep::done(Err(IpcError::Capnp(error))),
                }
            },
            (
                ConnectState::CreatingTemplate { thread_map, mining_client },
                ConnectEvent::TemplateCreated(created),
            ) => match created {
                Ok(block_template_client) => ConnectStep::done(
                    Ok(IpcContext { thread_map, mining_client, block_template_client }),
                ),
                Err(error) => ConnectStep::done(Err(IpcError::Capnp(error))),
            },
            (state, _) => ConnectStep::go_on(state, ConnectAction::KeepWaiting),
        }
    }

    /// The thread map to ask for a new thread; [`thread_made`] takes its answer.
    pub fn new_thread_client(&self) -> (thread_map: Capability)
        ensures
            thread_map == self.thread_map,
    {
        self.thread_map
    }
}

} // verus!
