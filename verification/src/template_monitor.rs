//! The task that waits for new templates and distributes them.
//!
//! [`BitcoinCoreSv2::monitor_ipc_templates`] takes the task from one await to the next:
//! it is given where the task stands and what came of the await, and says what the task
//! awaits then. Between two awaits other tasks may change the shared state.
use crate::error::{is_null_capability, BitcoinCoreSv2Error, TemplateDataError};
use crate::messages::{OutgoingMessage, OutgoingView, StoredTemplate};
use crate::service::{BitcoinCoreSv2, Lock, Locks, ServiceView};
use crate::types::Capability;
use vstd::prelude::*;

verus! {

/// How long, in milliseconds, the node may hold one request for the next template.
/// This is not how often templates come.
pub const WAIT_NEXT_TIMEOUT_MS: u64 = 10_000;

/// What the task awaits. `thread` is the thread that its waiting blocks.
#[derive(Debug)]
pub enum MonitorState {
    /// Nothing yet.
    Starting,
    /// A thread of its own.
    MakingThread,
    /// The template that follows `template_client`.
    Waiting { thread: Capability, template_client: Capability },
    /// The end of a wait that was called off.
    Interrupting,
    /// The data of the newest template.
    Fetching { thread: Capability },
    /// The end of a template that `template` has displaced; those in `remaining` are
    /// to follow it.
    Destroying { thread: Capability, template: StoredTemplate, remaining: Vec<StoredTemplate> },
    /// Delivery of `template`, announced for a block to come.
    SendingFuture { thread: Capability, template: StoredTemplate },
    /// Delivery of the block that `template` builds on.
    SendingPrevHash { thread: Capability, template: StoredTemplate },
    /// Delivery of `template`, for the block being mined.
    SendingCurrent { thread: Capability, template: StoredTemplate },
    /// Nothing any more.
    Stopped,
}

/// What came of an await.
#[derive(Debug)]
pub enum MonitorEvent {
    /// The task has been started.
    Started,
    /// The node has made a thread.
    ThreadMade(Result<Capability, capnp::Error>),
    /// The request for the next template could not be put together.
    WaitNotRequested(capnp::Error),
    /// The whole connection is to end.
    GlobalCancelled,
    /// The monitor is to end, and nothing else.
    TemplateCancelled,
    /// The request for the next template was lost, or its answer is unreadable.
    WaitFailed(capnp::Error),
    /// The answer to the request for the next template, as far as it names one.
    NextTemplate(Result<Capability, capnp::Error>),
    /// A wait was called off; whether the node agreed does not matter.
    Interrupted,
    /// The data of the newest template.
    TemplateFetched(Result<StoredTemplate, BitcoinCoreSv2Error>),
    /// The node has let go of a template.
    ClientDestroyed(Result<(), TemplateDataError>),
    /// A message was delivered, or could not be.
    Sent(bool),
}

/// What the task is to do next, and await.
#[derive(Debug)]
pub enum MonitorAction {
    /// Ask `thread_map` for a thread.
    MakeThread { thread_map: Capability },
    /// Ask `template_client`, on `thread`, for the template that follows it. Cancellation
    /// of the connection or of the monitor is to be looked out for meanwhile.
    WaitNext {
        template_client: Capability,
        thread: Capability,
        fee_threshold: i64,
        timeout_ms: u64,
    },
    /// Call off the wait on `template_client`.
    InterruptWait { template_client: Capability },
    /// Get the data of `template_client`.
    FetchTemplate { template_client: Capability },
    /// Have the node let go of `client`, on `thread`.
    DestroyClient { client: Capability, thread: Capability },
    /// Send a message to the peers.
    Send(OutgoingMessage),
    /// End.
    Stop,
    /// Go on awaiting the same.
    KeepWaiting,
}

/// Where an event takes the task.
#[derive(Debug)]
pub struct MonitorStep {
    pub state: MonitorState,
    /// Whether the whole connection must be ended, before `action`.
    pub cancel_global: bool,
    pub action: MonitorAction,
}

/// What a [`MonitorState`] says.
#[verifier::ext_equal]
pub enum MonitorStateView {
    Starting,
    MakingThread,
    Waiting { thread: Capability, template_client: Capability },
    Interrupting,
    Fetching { thread: Capability },
    Destroying { thread: Capability, template: StoredTemplate, remaining: Seq<StoredTemplate> },
    SendingFuture { thread: Capability, template: StoredTemplate },
    SendingPrevHash { thread: Capability, template: StoredTemplate },
    SendingCurrent { thread: Capability, template: StoredTemplate },
    Stopped,
}

/// What a [`MonitorAction`] says.
#[verifier::ext_equal]
pub enum MonitorActionView {
    MakeThread { thread_map: Capability },
    WaitNext {
        template_client: Capability,
        thread: Capability,
        fee_threshold: int,
        timeout_ms: int,
    },
    InterruptWait { template_client: Capability },
    FetchTemplate { template_client: Capability },
    DestroyClient { client: Capability, thread: Capability },
    Send(OutgoingView),
    Stop,
    KeepWaiting,
}

/// What a [`MonitorStep`] says.
#[verifier::ext_equal]
pub struct MonitorStepView {
    pub state: MonitorStateView,
    pub cancel_global: bool,
    pub action: MonitorActionView,
}

impl View for MonitorState {
    type V = MonitorStateView;

    open spec fn view(&self) -> MonitorStateView {
        match *self {
            MonitorState::Starting => MonitorStateView::Starting,
            MonitorState::MakingThread => MonitorStateView::MakingThread,
            MonitorState::Waiting { thread, template_client } => MonitorStateView::Waiting {
                thread,
                template_client,
            },
            MonitorState::Interrupting => MonitorStateView::Interrupting,
            MonitorState::Fetching { thread } => MonitorStateView::Fetching { thread },
            MonitorState::Destroying { thread, template, remaining } => {
                MonitorStateView::Destroying { thread, template, remaining: remaining@ }
            },
            MonitorState::SendingFuture { thread, template } => MonitorStateView::SendingFuture {
                thread,
                template,
            },
            MonitorState::SendingPrevHash { thread, template } => {
                MonitorStateView::SendingPrevHash { thread, template }
            },
            MonitorState::SendingCurrent { thread, template } => {
                MonitorStateView::SendingCurrent { thread, template }
            },
            MonitorState::Stopped => MonitorStateView::Stopped,
        }
    }
}

impl View for MonitorAction {
    type V = MonitorActionView;

    open spec fn view(&self) -> MonitorActionView {
        match *self {
            MonitorAction::MakeThread { thread_map } => MonitorActionView::MakeThread {
                thread_map,
            },
            MonitorAction::WaitNext { template_client, thread, fee_threshold, timeout_ms } => {
                MonitorActionView::WaitNext {
                    template_client,
                    thread,
                    fee_threshold: fee_threshold as int,
                    timeout_ms: timeout_ms as int,
                }
            },
            MonitorAction::InterruptWait { template_client } => MonitorActionView::InterruptWait {
                template_client,
            },
            MonitorAction::FetchTemplate { template_client } => MonitorActionView::FetchTemplate {
                template_client,
            },
            MonitorAction::DestroyClient { client, thread } => MonitorActionView::DestroyClient {
                client,
                thread,
            },
            MonitorAction::Send(message) => MonitorActionView::Send(message@),
            MonitorAction::Stop => MonitorActionView::Stop,
            MonitorAction::KeepWaiting => MonitorActionView::KeepWaiting,
        }
    }
}

impl View for MonitorStep {
    type V = MonitorStepView;

    open spec fn view(&self) -> MonitorStepView {
        MonitorStepView {
            state: self.state@,
            cancel_global: self.cancel_global,
            action: self.action@,
        }
    }
}

/// The task ends; `cancel_global` says whether it takes the connection with it.
pub open spec fn stop(cancel_global: bool) -> MonitorStepView {
    MonitorStepView {
        state: MonitorStateView::Stopped,
        cancel_global,
        action: MonitorActionView::Stop,
    }
}

/// The task goes on to await `state` after `action`.
pub open spec fn go_on(state: MonitorStateView, action: MonitorActionView) -> MonitorStepView {
    MonitorStepView { state, cancel_global: false, action }
}

/// A threshold as the node reads it: 64 bits in two's complement.
pub open spec fn as_signed(threshold: u64) -> int {
    if threshold <= i64::MAX {
        threshold as int
    } else {
        threshold - 0x1_0000_0000_0000_0000
    }
}

/// The task waits for the next template, if there is one for the next to follow.
pub open spec fn wait_for_next(service: ServiceView, thread: Capability) -> MonitorStepView {
    match service.template_client {
        Some(template_client) => go_on(
            MonitorStateView::Waiting { thread, template_client },
            MonitorActionView::WaitNext {
                template_client,
                thread,
                fee_threshold: as_signed(service.fee_threshold),
                timeout_ms: WAIT_NEXT_TIMEOUT_MS as int,
            },
        ),
        None => stop(true),
    }
}

/// The answer to the request for the next template names none. Without a capability in
/// it, the time was up and no fees had risen, and the task waits anew; any other reason
/// ends the connection.
pub open spec fn no_next_template(
    service: ServiceView,
    thread: Capability,
    without_capability: bool,
) -> MonitorStepView {
    if without_capability {
        wait_for_next(service, thread)
    } else {
        stop(true)
    }
}

/// The task announces `template` for a block to come.
pub open spec fn announce_future(
    thread: Capability,
    template: StoredTemplate,
    cancel_global: bool,
) -> MonitorStepView {
    MonitorStepView {
        state: MonitorStateView::SendingFuture { thread, template },
        cancel_global,
        action: MonitorActionView::Send(
            OutgoingView::NewTemplate { template, future_template: true },
        ),
    }
}

/// The task has the node let go of the last of `displaced`; when none is left it
/// announces `template`.
pub open spec fn destroy_next(
    service: ServiceView,
    thread: Capability,
    template: StoredTemplate,
    displaced: Seq<StoredTemplate>,
) -> MonitorStepView {
    if displaced.len() == 0 {
        announce_future(thread, template, false)
    } else {
        go_on(
            MonitorStateView::Destroying { thread, template, remaining: displaced.drop_last() },
            MonitorActionView::DestroyClient {
                client: displaced.last().ipc_client,
                thread: service.thread_ipc_client,
            },
        )
    }
}

/// The data of a new template is there: what becomes of the shared state and where the
/// task goes.
///
/// If the template builds on another block than the last one did, the templates kept
/// so far are stale, only the new one is kept, and the node is told to let go of the
/// others before the new one is announced. Else the template is sent at once.
pub open spec fn template_arrives(
    before: ServiceView,
    thread: Capability,
    template: StoredTemplate,
    locks: Locks,
    after: ServiceView,
    step: MonitorStepView,
) -> bool {
    match before.prev_hash {
        None => after == before && step == stop(true),
        Some(prev_hash) => if prev_hash == template.prev_hash {
            &&& after == before
            &&& step == go_on(
                MonitorStateView::SendingCurrent { thread, template },
                MonitorActionView::Send(
                    OutgoingView::NewTemplate { template, future_template: false },
                ),
            )
        } else if locks.template_data == Lock::Healthy && locks.stale_template_ids
            == Lock::Healthy {
            &&& after == before.tip_changed(template)
            &&& exists|displaced: Seq<StoredTemplate>| #[trigger]
                crate::service::lists_once(displaced, before.templates) && step == destroy_next(
                    before,
                    thread,
                    template,
                    displaced,
                )
        } else {
            &&& after == (ServiceView { prev_hash: Some(template.prev_hash), ..before })
            &&& step == stop(true)
        },
    }
}

/// A new template has been delivered: it is kept, and the next one is waited for.
pub open spec fn template_delivered(
    before: ServiceView,
    thread: Capability,
    template: StoredTemplate,
    locks: Locks,
    after: ServiceView,
    step: MonitorStepView,
) -> bool {
    if locks.template_data == Lock::Healthy {
        &&& after == before.saved(template)
        &&& step == wait_for_next(before, thread)
    } else {
        &&& after == before
        &&& step == stop(true)
    }
}

/// Where `event` takes the task that stands at `state`, and what it makes of the
/// shared state. An event that the task does not await changes nothing.
pub open spec fn monitor_transition(
    before: ServiceView,
    state: MonitorStateView,
    event: MonitorEvent,
    locks: Locks,
    after: ServiceView,
    step: MonitorStepView,
) -> bool {
    match (state, event) {
        (MonitorStateView::Starting, MonitorEvent::Started) => {
            &&& after == before
            &&& step == go_on(
                MonitorStateView::MakingThread,
                MonitorActionView::MakeThread { thread_map: before.thread_map },
            )
        },
        (MonitorStateView::MakingThread, MonitorEvent::ThreadMade(made)) => {
            &&& after == before
            &&& step == match made {
                Ok(thread) => wait_for_next(before, thread),
                Err(_) => stop(true),
            }
        },
        (MonitorStateView::Waiting { .. }, MonitorEvent::WaitNotRequested(_)) => {
            after == before && step == stop(true)
        },
        (MonitorStateView::Waiting { .. }, MonitorEvent::WaitFailed(_)) => {
            after == before && step == stop(true)
        },
        (MonitorStateView::Waiting { template_client, .. }, MonitorEvent::GlobalCancelled) => {
            &&& after == before
            &&& step == go_on(
                MonitorStateView::Interrupting,
                MonitorActionView::InterruptWait { template_client },
            )
        },
        (MonitorStateView::Waiting { template_client, .. }, MonitorEvent::TemplateCancelled) => {
            &&& after == before
            &&& step == go_on(
                MonitorStateView::Interrupting,
                MonitorActionView::InterruptWait { template_client },
            )
        },
        (MonitorStateView::Waiting { thread, .. }, MonitorEvent::NextTemplate(next)) => {
            match next {
                Ok(template_client) => {
                    &&& after == (ServiceView { template_client: Some(template_client), ..before })
                    &&& step == go_on(
                        MonitorStateView::Fetching { thread },
                        MonitorActionView::FetchTemplate { template_client },
                    )
                },
                Err(error) => {
                    &&& after == before
                    &&& step == no_next_template(
                        before,
                        thread,
                        crate::error::null_capability(error),
                    )
                },
            }
        },
        (MonitorStateView::Interrupting, MonitorEvent::Interrupted) => {
            after == before && step == stop(false)
        },
        (MonitorStateView::Fetching { thread }, MonitorEvent::TemplateFetched(fetched)) => {
            match fetched {
                Ok(template) => template_arrives(before, thread, template, locks, after, step),
                Err(_) => after == before && step == stop(true),
            }
        },
        (
            MonitorStateView::Destroying { thread, template, remaining },
            MonitorEvent::ClientDestroyed(destroyed),
        ) => {
            &&& after == before
            &&& step == match destroyed {
                Ok(_) => destroy_next(before, thread, template, remaining),
                Err(_) => announce_future(thread, template, true),
            }
        },
        (MonitorStateView::SendingFuture { thread, template }, MonitorEvent::Sent(sent)) => {
            &&& after == before
            &&& step == if sent {
                go_on(
                    MonitorStateView::SendingPrevHash { thread, template },
                    MonitorActionView::Send(OutgoingView::SetNewPrevHash { template }),
                )
            } else {
                stop(true)
            }
        },
        (MonitorStateView::SendingPrevHash { thread, template }, MonitorEvent::Sent(sent)) => {
            if sent {
                template_delivered(before, thread, template, locks, after, step)
            } else {
                after == before && step == stop(true)
            }
        },
        (MonitorStateView::SendingCurrent { thread, template }, MonitorEvent::Sent(sent)) => {
            if sent {
                template_delivered(before, thread, template, locks, after, step)
            } else {
                after == before && step == stop(true)
            }
        },
        _ => after == before && step == go_on(state, MonitorActionView::KeepWaiting),
    }
}

impl MonitorStep {
    /// The task ends.
    fn stop(cancel_global: bool) -> (res: Self)
        ensures
            res@ == stop(cancel_global),
    {
        MonitorStep { state: MonitorState::Stopped, cancel_global, action: MonitorAction::Stop }
    }

    /// The task goes on.
    fn go_on(state: MonitorState, action: MonitorAction) -> (res: Self)
        ensures
            res@ == go_on(state@, action@),
    {
        MonitorStep { state, cancel_global: false, action }
    }

    /// The task announces a template for a block to come.
    fn announce_future(thread: Capability, template: StoredTemplate, cancel_global: bool) -> (res:
        Self)
        ensures
            res@ == announce_future(thread, template, cancel_global),
    {
        MonitorStep {
            state: MonitorState::SendingFuture { thread, template },
            cancel_global,
            action: MonitorAction::Send(
                OutgoingMessage::NewTemplate { template, future_template: true },
            ),
        }
    }
}

/// The threshold as the node reads it.
fn signed_threshold(threshold: u64) -> (res: i64)
    ensures
        res == as_signed(threshold),
{
    assert(threshold <= 0x7fff_ffff_ffff_ffff ==> threshold as i64 == threshold) by (bit_vector);
    assert(threshold > 0x7fff_ffff_ffff_ffff ==> threshold as i64 == threshold
        - 0x1_0000_0000_0000_0000) by (bit_vector);
    threshold as i64
}

impl BitcoinCoreSv2 {
    /// Waits for the template that follows the newest one.
    fn wait_for_next(&self, thread: Capability) -> (res: MonitorStep)
        ensures
            res@ == wait_for_next(self@, thread),
    {
        match self.current_template_ipc_client {
            Some(template_client) => MonitorStep::go_on(
                MonitorState::Waiting { thread, template_client },
                MonitorAction::WaitNext {
                    template_client,
                    thread,
                    fee_threshold: signed_threshold(self.fee_threshold),
                    timeout_ms: WAIT_NEXT_TIMEOUT_MS,
                },
            ),
            None => MonitorStep::stop(true),
        }
    }

    /// Takes the answer that names no next template.
    pub fn no_next_template(&self, thread: Capability, without_capability: bool) -> (res:
        MonitorStep)
        ensures
            res@ == no_next_template(self@, thread, without_capability),
    {
        if without_capability {
            self.wait_for_next(thread)
        } else {
            MonitorStep::stop(true)
        }
    }

    /// Has the node let go of the templates that are displaced, then announces the new one.
    fn destroy_next(
        &self,
        thread: Capability,
        template: StoredTemplate,
        displaced: Vec<StoredTemplate>,
    ) -> (res: MonitorStep)
        ensures
            res@ == destroy_next(self@, thread, template, displaced@),
    {
        let mut remaining = displaced;
        match remaining.pop() {
            Some(last) => MonitorStep::go_on(
                MonitorState::Destroying { thread, template, remaining },
                MonitorAction::DestroyClient {
                    client: last.ipc_client,
                    thread: self.thread_ipc_client,
                },
            ),
            None => MonitorStep::announce_future(thread, template, false),
        }
    }

    /// Takes in a new template.
    fn template_arrives(
        &mut self,
        thread: Capability,
        template: StoredTemplate,
        locks: Locks,
    ) -> (res: MonitorStep)
        ensures
            template_arrives(old(self)@, thread, template, locks, final(self)@, res@),
    {
        let prev_hash = match self.current_prev_hash {
            Some(prev_hash) => prev_hash,
            None => {
                return MonitorStep::stop(true);
            },
        };
        if template.prev_hash != prev_hash {
            self.current_prev_hash = Some(template.prev_hash);
            match (locks.template_data, locks.stale_template_ids) {
                (Lock::Healthy, Lock::Healthy) => {},
                _ => {
                    return MonitorStep::stop(true);
                },
            }
            let displaced = self.change_tip(template);
            self.destroy_next(thread, template, displaced)
        } else {
            MonitorStep::go_on(
                MonitorState::SendingCurrent { thread, template },
                MonitorAction::Send(
                    OutgoingMessage::NewTemplate { template, future_template: false },
                ),
            )
        }
    }

    /// Keeps a template that has been delivered and waits for the next.
    fn template_delivered(
        &mut self,
        thread: Capability,
        template: StoredTemplate,
        locks: Locks,
    ) -> (res: MonitorStep)
        ensures
            template_delivered(old(self)@, thread, template, locks, final(self)@, res@),
    {
        match locks.template_data {
            Lock::Healthy => {},
            Lock::Poisoned => {
                return MonitorStep::stop(true);
            },
        }
        self.save_template(template);
        self.wait_for_next(thread)
    }

    /// Takes the task that waits for templates from one await to the next.
    pub fn monitor_ipc_templates(
        &mut self,
        state: MonitorState,
        event: MonitorEvent,
        locks: Locks,
    ) -> (step: MonitorStep)
        ensures
            monitor_transition(old(self)@, state@, event, locks, final(self)@, step@),
            old(self)@.well_formed() ==> final(self)@.well_formed(),
    {
        match (state, event) {
            (MonitorState::Starting, MonitorEvent::Started) => MonitorStep::go_on(
                MonitorState::MakingThread,
                MonitorAction::MakeThread { thread_map: self.thread_map },
            ),
            (MonitorState::MakingThread, MonitorEvent::ThreadMade(made)) => match made {
                Ok(thread) => self.wait_for_next(thread),
                Err(_) => MonitorStep::stop(true),
            },
            (MonitorState::Waiting { .. }, MonitorEvent::WaitNotRequested(_)) => {
                MonitorStep::stop(true)
            },
            (MonitorState::Waiting { .. }, MonitorEvent::WaitFailed(_)) => MonitorStep::stop(true),
            (MonitorState::Waiting { template_client, .. }, MonitorEvent::GlobalCancelled) => {
                MonitorStep::go_on(
                    MonitorState::Interrupting,
                    MonitorAction::InterruptWait { template_client },
                )
            },
            (MonitorState::Waiting { template_client, .. }, MonitorEvent::TemplateCancelled) => {
                MonitorStep::go_on(
                    MonitorState::Interrupting,
                    MonitorAction::InterruptWait { template_client },
                )
            },
            (MonitorState::Waiting { thread, .. }, MonitorEvent::NextTemplate(next)) => {
                match next {
                    Ok(template_client) => {
                        self.current_template_ipc_client = Some(template_client);
                        MonitorStep::go_on(
                            MonitorState::Fetching { thread },
                            MonitorAction::FetchTemplate { template_client },
                        )
                    },
                    Err(error) => self.no_next_template(thread, is_null_capability(&error)),
                }
            },
            (MonitorState::Interrupting, MonitorEvent::Interrupted) => MonitorStep::stop(false),
            (MonitorState::Fetching { thread }, MonitorEvent::TemplateFetched(fetched)) => {
                match fetched {
                    Ok(template) => self.template_arrives(thread, template, locks),
                    Err(_) => MonitorStep::stop(true),
                }
            },
            (
                MonitorState::Destroying { thread, template, remaining },
                MonitorEvent::ClientDestroyed(destroyed),
            ) => match destroyed {
                Ok(_) => self.destroy_next(thread, template, remaining),
                Err(_) => MonitorStep::announce_future(thread, template, true),
            },
            (MonitorState::SendingFuture { thread, template }, MonitorEvent::Sent(sent)) => {
                if sent {
                    MonitorStep::go_on(
                        MonitorState::SendingPrevHash { thread, template },
                        MonitorAction::Send(OutgoingMessage::SetNewPrevHash { template }),
                    )
                } else {
                    MonitorStep::stop(true)
                }
            },
            (MonitorState::SendingPrevHash { thread, template }, MonitorEvent::Sent(sent)) => {
                if sent {
                    self.template_delivered(thread, template, locks)
                } else {
                    MonitorStep::stop(true)
                }
            },
            (MonitorState::SendingCurrent { thread, template }, MonitorEvent::Sent(sent)) => {
                if sent {
                    self.template_delivered(thread, template, locks)
                } else {
                    MonitorStep::stop(true)
                }
            },
            (state, _) => MonitorStep::go_on(state, MonitorAction::KeepWaiting),
        }
    }
}

} // verus!
