//! The task that takes the messages of the peers.
//!
//! [`BitcoinCoreSv2::monitor_incoming_messages`] takes the task from one await to the
//! next, as [`crate::template_monitor`] does for the other task.
use crate::error::{BitcoinCoreSv2Error, TemplateDataError};
use crate::handlers::{SolutionCall, TemplateClientRequest};
use crate::messages::{IncomingMessage, OutgoingMessage, OutgoingView, SubmitSolution};
use crate::messages::StoredTemplate;
use crate::service::{BitcoinCoreSv2, Locks, ServiceView};
use crate::types::Capability;
use vstd::prelude::*;

verus! {

/// What the task awaits.
#[derive(Clone, Copy, Debug, PartialEq, Eq, Structural)]
pub enum IncomingState {
    /// A message, or the end of the connection.
    Receiving,
    /// A template client for the constraints of a peer.
    CreatingTemplateClient,
    /// Delivery of an answer.
    Answering,
    /// The node's verdict on a solution.
    Submitting,
    /// The end of the connection: no message can come any more.
    Closed,
    /// Nothing any more.
    Stopped,
}

/// What came of an await.
#[derive(Debug)]
pub enum IncomingEvent {
    /// The whole connection is to end.
    GlobalCancelled,
    /// A message came in.
    Received(IncomingMessage),
    /// There is nobody left to send messages.
    ChannelClosed,
    /// The node has made a template client.
    TemplateClientCreated(Result<Capability, BitcoinCoreSv2Error>),
    /// An answer was delivered, or could not be.
    AnswerSent(bool),
    /// The node has taken a solution, or turned it down.
    SolutionSubmitted(Result<(), TemplateDataError>),
}

/// What the task is to do next, and await.
#[derive(Debug)]
pub enum IncomingAction {
    /// Take the next message, unless the connection ends before.
    Receive,
    /// Wait for the end of the connection.
    AwaitCancellation,
    /// Fire the token of the template monitor that runs, then make a template client.
    CreateTemplateClient(TemplateClientRequest),
    /// Send a message to the peers.
    Send(OutgoingMessage),
    /// Hand a solution to the node.
    Submit(SolutionCall),
    /// End.
    Stop,
    /// Go on awaiting the same.
    KeepWaiting,
}

/// Where an event takes the task.
#[derive(Debug)]
pub struct IncomingStep {
    pub state: IncomingState,
    /// Whether the whole connection must be ended, before `action`.
    pub cancel_global: bool,
    /// Whether a template monitor must be started, with a token of its own, before
    /// `action`.
    pub spawn_template_monitor: bool,
    pub action: IncomingAction,
}

/// What an [`IncomingAction`] says.
#[verifier::ext_equal]
pub enum IncomingActionView {
    Receive,
    AwaitCancellation,
    CreateTemplateClient(TemplateClientRequest),
    Send(OutgoingView),
    Submit { template: StoredTemplate, thread: Capability, solution: SubmitSolution },
    Stop,
    KeepWaiting,
}

/// What an [`IncomingStep`] says.
#[verifier::ext_equal]
pub struct IncomingStepView {
    pub state: IncomingState,
    pub cancel_global: bool,
    pub spawn_template_monitor: bool,
    pub action: IncomingActionView,
}

impl View for IncomingAction {
    type V = IncomingActionView;

    open spec fn view(&self) -> IncomingActionView {
        match *self {
            IncomingAction::Receive => IncomingActionView::Receive,
            IncomingAction::AwaitCancellation => IncomingActionView::AwaitCancellation,
            IncomingAction::CreateTemplateClient(request) => {
                IncomingActionView::CreateTemplateClient(request)
            },
            IncomingAction::Send(message) => IncomingActionView::Send(message@),
            IncomingAction::Submit(call) => IncomingActionView::Submit {
                template: call.template,
                thread: call.thread,
                solution: call.solution,
            },
            IncomingAction::Stop => IncomingActionView::Stop,
            IncomingAction::KeepWaiting => IncomingActionView::KeepWaiting,
        }
    }
}

impl View for IncomingStep {
    type V = IncomingStepView;

    open spec fn view(&self) -> IncomingStepView {
        IncomingStepView {
            state: self.state,
            cancel_global: self.cancel_global,
            spawn_template_monitor: self.spawn_template_monitor,
            action: self.action@,
        }
    }
}

/// The task ends; `cancel_global` says whether it takes the connection with it.
pub open spec fn stop_incoming(cancel_global: bool) -> IncomingStepView {
    IncomingStepView {
        state: IncomingState::Stopped,
        cancel_global,
        spawn_template_monitor: false,
        action: IncomingActionView::Stop,
    }
}

/// The task goes on to await `state` after `action`.
pub open spec fn incoming_goes_on(
    state: IncomingState,
    action: IncomingActionView,
) -> IncomingStepView {
    IncomingStepView { state, cancel_global: false, spawn_template_monitor: false, action }
}

/// The task takes the next message.
pub open spec fn receive_next() -> IncomingStepView {
    incoming_goes_on(IncomingState::Receiving, IncomingActionView::Receive)
}

/// What the task makes of a message.
pub open spec fn message_step(
    service: ServiceView,
    message: IncomingMessage,
    locks: Locks,
) -> IncomingStepView {
    match message {
        IncomingMessage::CoinbaseOutputConstraints(constraints) => incoming_goes_on(
            IncomingState::CreatingTemplateClient,
            IncomingActionView::CreateTemplateClient(
                TemplateClientRequest {
                    coinbase_output_max_additional_size:
                        constraints.coinbase_output_max_additional_size,
                    coinbase_output_max_additional_sigops:
                        constraints.coinbase_output_max_additional_sigops,
                },
            ),
        ),
        IncomingMessage::RequestTransactionData(request) => if service.can_answer(
            request.template_id,
            locks,
        ) {
            incoming_goes_on(
                IncomingState::Answering,
                IncomingActionView::Send(service.transaction_data_answer(request.template_id)),
            )
        } else {
            stop_incoming(true)
        },
        IncomingMessage::SubmitSolution(solution) => if service.can_submit(
            solution.template_id,
            locks,
        ) {
            incoming_goes_on(
                IncomingState::Submitting,
                IncomingActionView::Submit {
                    template: service.templates[solution.template_id],
                    thread: service.thread_ipc_client,
                    solution,
                },
            )
        } else {
            stop_incoming(true)
        },
        _ => receive_next(),
    }
}

/// What a message makes of the shared state: constraints end the template monitor that
/// runs, all others leave it as it is.
pub open spec fn message_effect(service: ServiceView, message: IncomingMessage) -> ServiceView {
    if message is CoinbaseOutputConstraints {
        service.monitor_ended()
    } else {
        service
    }
}

/// What an event makes of the shared state.
pub open spec fn incoming_effect(
    service: ServiceView,
    state: IncomingState,
    event: IncomingEvent,
) -> ServiceView {
    match (state, event) {
        (IncomingState::Receiving, IncomingEvent::Received(message)) => message_effect(
            service,
            message,
        ),
        (
            IncomingState::CreatingTemplateClient,
            IncomingEvent::TemplateClientCreated(Ok(client)),
        ) => service.client_replaced(client),
        _ => service,
    }
}

/// Where an event takes the task. An event that the task does not await changes nothing.
pub open spec fn incoming_step(
    service: ServiceView,
    state: IncomingState,
    event: IncomingEvent,
    locks: Locks,
) -> IncomingStepView {
    match (state, event) {
        (IncomingState::Receiving, IncomingEvent::GlobalCancelled) => stop_incoming(false),
        (IncomingState::Closed, IncomingEvent::GlobalCancelled) => stop_incoming(false),
        (IncomingState::Receiving, IncomingEvent::ChannelClosed) => incoming_goes_on(
            IncomingState::Closed,
            IncomingActionView::AwaitCancellation,
        ),
        (IncomingState::Receiving, IncomingEvent::Received(message)) => message_step(
            service,
            message,
            locks,
        ),
        (
            IncomingState::CreatingTemplateClient,
            IncomingEvent::TemplateClientCreated(created),
        ) => match created {
            Ok(_) => IncomingStepView { spawn_template_monitor: true, ..receive_next() },
            Err(_) => stop_incoming(true),
        },
        (IncomingState::Answering, IncomingEvent::AnswerSent(sent)) => if sent {
            receive_next()
        } else {
            stop_incoming(true)
        },
        (IncomingState::Submitting, IncomingEvent::SolutionSubmitted(outcome)) => {
            match outcome {
                Ok(_) => receive_next(),
                Err(_) => stop_incoming(true),
            }
        },
        _ => incoming_goes_on(state, IncomingActionView::KeepWaiting),
    }
}

impl IncomingStep {
    /// The task ends.
    fn stop(cancel_global: bool) -> (res: Self)
        ensures
            res@ == stop_incoming(cancel_global),
    {
        IncomingStep {
            state: IncomingState::Stopped,
            cancel_global,
            spawn_template_monitor: false,
            action: IncomingAction::Stop,
        }
    }

    /// The task goes on.
    fn go_on(state: IncomingState, action: IncomingAction) -> (res: Self)
        ensures
            res@ == incoming_goes_on(state, action@),
    {
        IncomingStep { state, cancel_global: false, spawn_template_monitor: false, action }
    }

    /// A handler is done: the task takes the next message, or ends the connection with
    /// itself if the handler failed.
    fn handled(outcome: Result<(), BitcoinCoreSv2Error>) -> (res: Self)
        ensures
            res@ == if outcome is Ok {
                receive_next()
            } else {
                stop_incoming(true)
            },
    {
        match outcome {
            Ok(_) => IncomingStep::go_on(IncomingState::Receiving, IncomingAction::Receive),
            Err(_) => IncomingStep::stop(true),
        }
    }
}

impl BitcoinCoreSv2 {
    /// Takes a message to the handler it is for; those that no peer should send are
    /// passed over.
    fn take_message(&mut self, message: IncomingMessage, locks: Locks) -> (res: IncomingStep)
        ensures
            res@ == message_step(old(self)@, message, locks),
            final(self)@ == message_effect(old(self)@, message),
    {
        match message {
            IncomingMessage::CoinbaseOutputConstraints(constraints) => {
                let request = self.handle_coinbase_output_constraints(constraints);
                IncomingStep::go_on(
                    IncomingState::CreatingTemplateClient,
                    IncomingAction::CreateTemplateClient(request),
                )
            },
            IncomingMessage::RequestTransactionData(request) => {
                match self.handle_request_transaction_data(request, locks) {
                    Ok(answer) => IncomingStep::go_on(
                        IncomingState::Answering,
                        IncomingAction::Send(answer),
                    ),
                    Err(_) => IncomingStep::stop(true),
                }
            },
            IncomingMessage::SubmitSolution(solution) => {
                match self.handle_submit_solution(solution, locks) {
                    Ok(call) => IncomingStep::go_on(
                        IncomingState::Submitting,
                        IncomingAction::Submit(call),
                    ),
                    Err(_) => IncomingStep::stop(true),
                }
            },
            _ => IncomingStep::go_on(IncomingState::Receiving, IncomingAction::Receive),
        }
    }

    /// Takes the task that answers the peers from one await to the next.
    pub fn monitor_incoming_messages(
        &mut self,
        state: IncomingState,
        event: IncomingEvent,
        locks: Locks,
    ) -> (step: IncomingStep)
        ensures
            step@ == incoming_step(old(self)@, state, event, locks),
            final(self)@ == incoming_effect(old(self)@, state, event),
            old(self)@.well_formed() ==> final(self)@.well_formed(),
    {
        match (state, event) {
            (IncomingState::Receiving, IncomingEvent::GlobalCancelled) => IncomingStep::stop(
                false,
            ),
            (IncomingState::Closed, IncomingEvent::GlobalCancelled) => IncomingStep::stop(false),
            (IncomingState::Receiving, IncomingEvent::ChannelClosed) => IncomingStep::go_on(
                IncomingState::Closed,
                IncomingAction::AwaitCancellation,
            ),
            (IncomingState::Receiving, IncomingEvent::Received(message)) => self.take_message(
                message,
                locks,
            ),
            (
                IncomingState::CreatingTemplateClient,
                IncomingEvent::TemplateClientCreated(created),
            ) => {
                let outcome = self.template_client_created(created);
                let spawn_template_monitor = outcome.is_ok();
                IncomingStep { spawn_template_monitor, ..IncomingStep::handled(outcome) }
            },
            (IncomingState::Answering, IncomingEvent::AnswerSent(sent)) => IncomingStep::handled(
                BitcoinCoreSv2::transaction_data_answered(sent),
            ),
            (IncomingState::Submitting, IncomingEvent::SolutionSubmitted(outcome)) => {
                IncomingStep::handled(BitcoinCoreSv2::solution_submitted(outcome))
            },
            _ => IncomingStep::go_on(state, IncomingAction::KeepWaiting),
        }
    }
}

} // verus!
