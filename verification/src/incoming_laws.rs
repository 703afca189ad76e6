//! What becomes of each message of a peer, and of each thing that the task which takes
//! messages awaits, whatever the state that the tasks share.
use crate::error::{BitcoinCoreSv2Error, TemplateDataError};
use crate::handlers::TemplateClientRequest;
use crate::incoming_monitor::{
    IncomingActionView, IncomingEvent, IncomingState, IncomingStepView,
};
use crate::messages::{
    CoinbaseOutputConstraints, IncomingMessage, OutgoingView, RequestTransactionData,
    SubmitSolution,
};
use crate::service::{Lock, Locks, ServiceView};
use crate::types::Capability;
use vstd::prelude::*;

verus! {

/// The end of the connection ends the task, whether it awaits a message or nothing but
/// that end. The connection is not ended again, nothing is started and nothing changes.
pub proof fn law_cancellation_ends_the_task(service: ServiceView, locks: Locks)
    ensures
        crate::incoming_monitor::incoming_step(
            service,
            IncomingState::Receiving,
            IncomingEvent::GlobalCancelled,
            locks,
        ) == (IncomingStepView {
            state: IncomingState::Stopped,
            cancel_global: false,
            spawn_template_monitor: false,
            action: IncomingActionView::Stop,
        }),
        crate::incoming_monitor::incoming_step(
            service,
            IncomingState::Closed,
            IncomingEvent::GlobalCancelled,
            locks,
        ) == (IncomingStepView {
            state: IncomingState::Stopped,
            cancel_global: false,
            spawn_template_monitor: false,
            action: IncomingActionView::Stop,
        }),
        crate::incoming_monitor::incoming_effect(
            service,
            IncomingState::Receiving,
            IncomingEvent::GlobalCancelled,
        ) == service,
        crate::incoming_monitor::incoming_effect(
            service,
            IncomingState::Closed,
            IncomingEvent::GlobalCancelled,
        ) == service,
{
}

/// Once no message can come any more, the task awaits the end of the connection and does
/// nothing else.
pub proof fn law_closed_channel_leaves_the_end(service: ServiceView, locks: Locks)
    ensures
        crate::incoming_monitor::incoming_step(
            service,
            IncomingState::Receiving,
            IncomingEvent::ChannelClosed,
            locks,
        ) == (IncomingStepView {
            state: IncomingState::Closed,
            cancel_global: false,
            spawn_template_monitor: false,
            action: IncomingActionView::AwaitCancellation,
        }),
        crate::incoming_monitor::incoming_effect(
            service,
            IncomingState::Receiving,
            IncomingEvent::ChannelClosed,
        ) == service,
{
}

/// Constraints of a peer have the node asked for a template client with just the size and
/// the signature operations that the peer names, however many came before. The token of
/// the running template monitor is fired; nothing else changes.
pub proof fn law_constraints_are_passed_on(
    service: ServiceView,
    constraints: CoinbaseOutputConstraints,
    locks: Locks,
)
    ensures
        ({
            let event = IncomingEvent::Received(
                IncomingMessage::CoinbaseOutputConstraints(constraints),
            );
            let step = crate::incoming_monitor::incoming_step(
                service,
                IncomingState::Receiving,
                event,
                locks,
            );
            let after = crate::incoming_monitor::incoming_effect(
                service,
                IncomingState::Receiving,
                event,
            );
            &&& step.state is CreatingTemplateClient
            &&& !step.cancel_global
            &&& !step.spawn_template_monitor
            &&& step.action matches IncomingActionView::CreateTemplateClient(request)
                && request.coinbase_output_max_additional_size
                == constraints.coinbase_output_max_additional_size
                && request.coinbase_output_max_additional_sigops
                == constraints.coinbase_output_max_additional_sigops
            &&& after.template_token_cancelled
            &&& after == (ServiceView { template_token_cancelled: true, ..service })
        }),
        service.monitor_ended().template_token_cancelled,
        service.monitor_ended() == (ServiceView { template_token_cancelled: true, ..service }),
{
}

/// A template client that the node made becomes the newest template, with a token that
/// is not fired, and is counted; a template monitor is started and the next message is
/// taken. The count starts over behind the greatest number. Nothing else changes.
pub proof fn law_made_client_starts_a_monitor(
    service: ServiceView,
    client: Capability,
    locks: Locks,
)
    ensures
        ({
            let event = IncomingEvent::TemplateClientCreated(Ok(client));
            let after = crate::incoming_monitor::incoming_effect(
                service,
                IncomingState::CreatingTemplateClient,
                event,
            );
            &&& crate::incoming_monitor::incoming_step(
                service,
                IncomingState::CreatingTemplateClient,
                event,
                locks,
            ) == (IncomingStepView {
                state: IncomingState::Receiving,
                cancel_global: false,
                spawn_template_monitor: true,
                action: IncomingActionView::Receive,
            })
            &&& after == service.client_replaced(client)
            &&& after.template_client == Some(client)
            &&& !after.template_token_cancelled
            &&& after.constraints_counter == (service.constraints_counter + 1)
                % 0x1_0000_0000_0000_0000
            &&& after == (ServiceView {
                template_client: after.template_client,
                template_token_cancelled: after.template_token_cancelled,
                constraints_counter: after.constraints_counter,
                ..service
            })
        }),
{
}

/// Without a template client the connection ends, no monitor is started, and nothing
/// changes.
pub proof fn law_missing_client_ends_everything(
    service: ServiceView,
    error: BitcoinCoreSv2Error,
    locks: Locks,
)
    ensures
        crate::incoming_monitor::incoming_step(
            service,
            IncomingState::CreatingTemplateClient,
            IncomingEvent::TemplateClientCreated(Err(error)),
            locks,
        ) == (IncomingStepView {
            state: IncomingState::Stopped,
            cancel_global: true,
            spawn_template_monitor: false,
            action: IncomingActionView::Stop,
        }),
        crate::incoming_monitor::incoming_effect(
            service,
            IncomingState::CreatingTemplateClient,
            IncomingEvent::TemplateClientCreated(Err(error)),
        ) == service,
{
}

/// With both locks at hand every request for transactions is answered, whatever is kept
/// or stale: the answer is sent, the connection goes on and nothing changes.
pub proof fn law_every_request_is_answered(
    service: ServiceView,
    request: RequestTransactionData,
    locks: Locks,
)
    requires
        locks.template_data == Lock::Healthy,
        locks.stale_template_ids == Lock::Healthy,
    ensures
        service.can_answer(request.template_id, locks),
        ({
            let event = IncomingEvent::Received(IncomingMessage::RequestTransactionData(request));
            let step = crate::incoming_monitor::incoming_step(
                service,
                IncomingState::Receiving,
                event,
                locks,
            );
            &&& step.state is Answering
            &&& !step.cancel_global
            &&& !step.spawn_template_monitor
            &&& step.action == IncomingActionView::Send(
                service.transaction_data_answer(request.template_id),
            )
            &&& crate::incoming_monitor::incoming_effect(service, IncomingState::Receiving, event)
                == service
        }),
{
}

/// What a peer is told that asks for transactions: that the template is stale if it is;
/// else the transactions of just the template that is kept under the number, if one is;
/// else that there is none. The refusals carry the number asked for and one of two codes.
pub proof fn law_answer_to_a_request(service: ServiceView, template_id: u64)
    ensures
        match service.transaction_data_answer(template_id) {
            OutgoingView::RequestTransactionDataSuccess { template } => {
                &&& !service.stale.contains(template_id)
                &&& service.templates.contains_key(template_id)
                &&& template == service.templates[template_id]
            },
            OutgoingView::RequestTransactionDataError { template_id: named, error_code } => {
                &&& named == template_id
                &&& service.stale.contains(template_id) || !service.templates.contains_key(
                    template_id,
                )
                &&& service.stale.contains(template_id) ==> error_code == vstd::utf8::encode_utf8(
                    "stale-template-id"@,
                )
                &&& !service.stale.contains(template_id) ==> error_code
                    == vstd::utf8::encode_utf8("template-id-not-found"@)
            },
            _ => false,
        },
{
}

/// A request can be answered with a lock poisoned only where that lock is not needed:
/// without the one on what is stale it never can, without the other it can if the
/// template is stale. Where it cannot, the connection ends.
pub proof fn law_request_behind_a_poisoned_lock(
    service: ServiceView,
    request: RequestTransactionData,
    locks: Locks,
)
    ensures
        locks.stale_template_ids == Lock::Poisoned ==> !service.can_answer(
            request.template_id,
            locks,
        ),
        locks.stale_template_ids == Lock::Healthy && locks.template_data == Lock::Poisoned ==> (
        service.can_answer(request.template_id, locks) <==> service.stale.contains(
            request.template_id,
        )),
        ({
            let event = IncomingEvent::Received(IncomingMessage::RequestTransactionData(request));
            let step = crate::incoming_monitor::incoming_step(
                service,
                IncomingState::Receiving,
                event,
                locks,
            );
            let after = crate::incoming_monitor::incoming_effect(
                service,
                IncomingState::Receiving,
                event,
            );
            let needed = locks.stale_template_ids == Lock::Poisoned || (locks.template_data
                == Lock::Poisoned && !service.stale.contains(request.template_id));
            &&& after == service
            &&& needed ==> step == (IncomingStepView {
                state: IncomingState::Stopped,
                cancel_global: true,
                spawn_template_monitor: false,
                action: IncomingActionView::Stop,
            })
            &&& !needed ==> step == (IncomingStepView {
                state: IncomingState::Answering,
                cancel_global: false,
                spawn_template_monitor: false,
                action: IncomingActionView::Send(
                    service.transaction_data_answer(request.template_id),
                ),
            })
        }),
{
}

/// An answer that was delivered leads to the next message, one that was not ends the
/// connection. Nothing changes.
pub proof fn law_answer_sent_or_not(service: ServiceView, sent: bool, locks: Locks)
    ensures
        ({
            let step = crate::incoming_monitor::incoming_step(
                service,
                IncomingState::Answering,
                IncomingEvent::AnswerSent(sent),
                locks,
            );
            &&& !step.spawn_template_monitor
            &&& step.cancel_global == !sent
            &&& sent ==> step.state is Receiving && step.action is Receive
            &&& !sent ==> step.state is Stopped && step.action is Stop
        }),
        crate::incoming_monitor::incoming_effect(
            service,
            IncomingState::Answering,
            IncomingEvent::AnswerSent(sent),
        ) == service,
{
}

/// A solution goes, as it came, to the template kept under the number that it names, on
/// the connection's thread, be the template stale or not. Where none is kept or the lock
/// is poisoned, the connection ends. Nothing changes.
pub proof fn law_solution_goes_to_its_template(
    service: ServiceView,
    solution: SubmitSolution,
    locks: Locks,
)
    ensures
        service.can_submit(solution.template_id, locks) <==> locks.template_data == Lock::Healthy
            && service.templates.contains_key(solution.template_id),
        ({
            let event = IncomingEvent::Received(IncomingMessage::SubmitSolution(solution));
            let step = crate::incoming_monitor::incoming_step(
                service,
                IncomingState::Receiving,
                event,
                locks,
            );
            let possible = locks.template_data == Lock::Healthy && service.templates.contains_key(
                solution.template_id,
            );
            &&& crate::incoming_monitor::incoming_effect(service, IncomingState::Receiving, event)
                == service
            &&& !step.spawn_template_monitor
            &&& step.cancel_global == !possible
            &&& !possible ==> step.state is Stopped && step.action is Stop
            &&& possible ==> step.state is Submitting && (step.action matches
                IncomingActionView::Submit { template, thread, solution: handed_on } && template
                == service.templates[solution.template_id] && thread == service.thread_ipc_client
                && handed_on == solution)
        }),
{
}

/// A solution that the node takes leads to the next message, one that it turns down ends
/// the connection. Nothing changes.
pub proof fn law_solution_taken_or_not(
    service: ServiceView,
    outcome: Result<(), TemplateDataError>,
    locks: Locks,
)
    ensures
        ({
            let step = crate::incoming_monitor::incoming_step(
                service,
                IncomingState::Submitting,
                IncomingEvent::SolutionSubmitted(outcome),
                locks,
            );
            &&& !step.spawn_template_monitor
            &&& step.cancel_global == outcome is Err
            &&& outcome is Ok ==> step.state is Receiving && step.action is Receive
            &&& outcome is Err ==> step.state is Stopped && step.action is Stop
        }),
        crate::incoming_monitor::incoming_effect(
            service,
            IncomingState::Submitting,
            IncomingEvent::SolutionSubmitted(outcome),
        ) == service,
{
}

/// A message that only a template provider sends is passed over: the next one is taken,
/// and nothing changes.
pub proof fn law_provider_messages_are_passed_over(
    service: ServiceView,
    message: IncomingMessage,
    locks: Locks,
)
    requires
        message is NewTemplate || message is SetNewPrevHash || message
            is RequestTransactionDataSuccess || message is RequestTransactionDataError,
    ensures
        crate::incoming_monitor::incoming_step(
            service,
            IncomingState::Receiving,
            IncomingEvent::Received(message),
            locks,
        ) == (IncomingStepView {
            state: IncomingState::Receiving,
            cancel_global: false,
            spawn_template_monitor: false,
            action: IncomingActionView::Receive,
        }),
        crate::incoming_monitor::incoming_effect(
            service,
            IncomingState::Receiving,
            IncomingEvent::Received(message),
        ) == service,
{
}

/// What is no answer to what the task awaits leaves it and the shared state alone; a task
/// that has ended awaits nothing.
pub proof fn law_task_passes_over_the_rest(
    service: ServiceView,
    state: IncomingState,
    event: IncomingEvent,
    locks: Locks,
)
    requires
        event is GlobalCancelled ==> !(state is Receiving || state is Closed),
        event is Received || event is ChannelClosed ==> !(state is Receiving),
        event is TemplateClientCreated ==> !(state is CreatingTemplateClient),
        event is AnswerSent ==> !(state is Answering),
        event is SolutionSubmitted ==> !(state is Submitting),
    ensures
        crate::incoming_monitor::incoming_step(service, state, event, locks) == (
        IncomingStepView {
            state,
            cancel_global: false,
            spawn_template_monitor: false,
            action: IncomingActionView::KeepWaiting,
        }),
        crate::incoming_monitor::incoming_effect(service, state, event) == service,
{
}

/// Two requests for the node's template clients are alike just when the constraints of
/// the peers are: whatever came before, none is changed on its way.
pub proof fn law_different_constraints_make_different_requests(
    one: ServiceView,
    other: ServiceView,
    first: CoinbaseOutputConstraints,
    second: CoinbaseOutputConstraints,
    locks: Locks,
)
    ensures
        crate::incoming_monitor::incoming_step(
            one,
            IncomingState::Receiving,
            IncomingEvent::Received(IncomingMessage::CoinbaseOutputConstraints(first)),
            locks,
        ).action == crate::incoming_monitor::incoming_step(
            other,
            IncomingState::Receiving,
            IncomingEvent::Received(IncomingMessage::CoinbaseOutputConstraints(second)),
            locks,
        ).action <==> first == second,
{
    let a = crate::incoming_monitor::incoming_step(
        one,
        IncomingState::Receiving,
        IncomingEvent::Received(IncomingMessage::CoinbaseOutputConstraints(first)),
        locks,
    ).action;
    assert(a matches IncomingActionView::CreateTemplateClient(request) && request == (
    TemplateClientRequest {
        coinbase_output_max_additional_size: first.coinbase_output_max_additional_size,
        coinbase_output_max_additional_sigops: first.coinbase_output_max_additional_sigops,
    }));
}

/// The bytes of the two codes on the wire.
pub proof fn law_codes_are_plain_text()
    ensures
        crate::messages::stale_code() == vstd::utf8::encode_utf8("stale-template-id"@),
        crate::messages::not_found_code() == vstd::utf8::encode_utf8("template-id-not-found"@),
        crate::messages::stale_code().len() == 17,
        crate::messages::not_found_code().len() == 21,
{
    reveal_strlit("stale-template-id");
    reveal_strlit("template-id-not-found");
    vstd::string::is_ascii_spec_bytes("stale-template-id");
    vstd::string::is_ascii_spec_bytes("template-id-not-found");
    assert(vstd::string::is_ascii("stale-template-id"));
    assert(vstd::string::is_ascii("template-id-not-found"));
}

} // verus!
