//! What holds of the service as a whole, over the steps of its two tasks.
use crate::error::{BitcoinCoreSv2Error, TemplateDataError};
use crate::incoming_monitor::{IncomingActionView, IncomingEvent, IncomingState};
use crate::messages::{IncomingMessage, OutgoingView, StoredTemplate, SubmitSolution};
use crate::service::{Lock, Locks, ServiceView};
use crate::template_monitor::{
    MonitorActionView, MonitorEvent, MonitorStateView, MonitorStepView,
};
use crate::types::{BlockHash, Capability};
use vstd::prelude::*;

verus! {

/// Both locks can be taken.
pub open spec fn healthy(locks: Locks) -> bool {
    locks.template_data == Lock::Healthy && locks.stale_template_ids == Lock::Healthy
}

/// The refusal that a template is stale.
pub open spec fn stale_refusal(template_id: u64) -> OutgoingView {
    OutgoingView::RequestTransactionDataError {
        template_id,
        error_code: crate::messages::stale_code(),
    }
}

/// The refusal that a template is not known.
pub open spec fn not_found_refusal(template_id: u64) -> OutgoingView {
    OutgoingView::RequestTransactionDataError {
        template_id,
        error_code: crate::messages::not_found_code(),
    }
}

/// A list of what is kept names every template that is kept, each once and no other.
pub proof fn law_list_of_kept_templates(
    list: Seq<StoredTemplate>,
    templates: Map<u64, StoredTemplate>,
) -> (ids: Seq<u64>)
    requires
        crate::service::lists_once(list, templates),
    ensures
        ids.no_duplicates(),
        forall|id: u64| #[trigger] ids.contains(id) <==> templates.contains_key(id),
        list.len() == ids.len(),
        list.len() == templates.dom().len(),
        forall|i: int| 0 <= i < list.len() ==> #[trigger] list[i] == templates[ids[i]],
{
    let ids = choose|ids: Seq<u64>| #[trigger]
        crate::service::lists_by_id(ids, list, templates);
    assert forall|id: u64| #[trigger] ids.contains(id) <==> templates.contains_key(id) by {
        assert(ids.to_set().contains(id) <==> templates.dom().contains(id));
    }
    ids
}

/// The two refusals can be told apart.
pub proof fn law_refusals_differ(template_id: u64)
    ensures
        stale_refusal(template_id) != not_found_refusal(template_id),
{
    reveal_strlit("stale-template-id");
    reveal_strlit("template-id-not-found");
    vstd::string::is_ascii_spec_bytes("stale-template-id");
    vstd::string::is_ascii_spec_bytes("template-id-not-found");
    assert(vstd::string::is_ascii("stale-template-id"));
    assert(vstd::string::is_ascii("template-id-not-found"));
    assert(crate::messages::stale_code().len() == 17);
    assert(crate::messages::not_found_code().len() == 21);
}

/// Every answer to a request for transactions is about the template that was asked for.
pub proof fn law_answers_name_the_template_asked_for(service: ServiceView, template_id: u64)
    requires
        service.well_formed(),
    ensures
        match service.transaction_data_answer(template_id) {
            OutgoingView::RequestTransactionDataSuccess { template } => template.template_id
                == template_id,
            OutgoingView::RequestTransactionDataError { template_id: named, .. } => named
                == template_id,
            _ => false,
        },
{
}

/// A stale template is refused as such, also while a template is kept under its number.
pub proof fn law_stale_comes_first(service: ServiceView, template_id: u64)
    requires
        service.stale.contains(template_id),
    ensures
        service.transaction_data_answer(template_id) == stale_refusal(template_id),
{
}

/// `step` is what the template monitor does, and `after` what it leaves behind, once the
/// first template on another chain tip is there.
pub open spec fn tip_changes(
    before: ServiceView,
    thread: Capability,
    template: StoredTemplate,
    locks: Locks,
    after: ServiceView,
    step: MonitorStepView,
) -> bool {
    &&& before.prev_hash is Some
    &&& before.prev_hash != Some(template.prev_hash)
    &&& healthy(locks)
    &&& crate::template_monitor::monitor_transition(
        before,
        MonitorStateView::Fetching { thread },
        MonitorEvent::TemplateFetched(Ok(template)),
        locks,
        after,
        step,
    )
}

/// After a change of the chain tip a request for any template that was kept before is
/// refused as stale, the new template is there, and no other is known.
pub proof fn law_tip_change_retires_all_templates(
    before: ServiceView,
    thread: Capability,
    template: StoredTemplate,
    locks: Locks,
    after: ServiceView,
    step: MonitorStepView,
    template_id: u64,
)
    requires
        tip_changes(before, thread, template, locks, after, step),
    ensures
        after.prev_hash == Some(template.prev_hash),
        after.transaction_data_answer(template_id) == (if before.templates.contains_key(
            template_id,
        ) {
            stale_refusal(template_id)
        } else if template_id == template.template_id {
            OutgoingView::RequestTransactionDataSuccess { template }
        } else {
            not_found_refusal(template_id)
        }),
{
}

/// After a second change of the chain tip the templates that the first one made stale
/// are not known any more.
pub proof fn law_second_tip_change_forgets(
    first: (ServiceView, StoredTemplate, MonitorStepView),
    second: (ServiceView, StoredTemplate, MonitorStepView),
    thread: Capability,
    locks: Locks,
    after: ServiceView,
    template_id: u64,
)
    requires
        tip_changes(first.0, thread, first.1, locks, second.0, first.2),
        tip_changes(second.0, thread, second.1, locks, after, second.2),
        first.0.templates.contains_key(template_id),
        template_id != first.1.template_id,
        template_id != second.1.template_id,
    ensures
        second.0.transaction_data_answer(template_id) == stale_refusal(template_id),
        after.transaction_data_answer(template_id) == not_found_refusal(template_id),
{
}

/// A template on the same chain tip displaces nothing: it is sent for the block being
/// mined, and once that is done it is kept beside the others.
pub proof fn law_same_tip_keeps_all_templates(
    before: ServiceView,
    thread: Capability,
    template: StoredTemplate,
    locks: Locks,
    sending: ServiceView,
    step: MonitorStepView,
    later: ServiceView,
    after: ServiceView,
    next: MonitorStepView,
)
    requires
        before.prev_hash == Some(template.prev_hash),
        healthy(locks),
        crate::template_monitor::monitor_transition(
            before,
            MonitorStateView::Fetching { thread },
            MonitorEvent::TemplateFetched(Ok(template)),
            locks,
            sending,
            step,
        ),
        crate::template_monitor::monitor_transition(
            later,
            step.state,
            MonitorEvent::Sent(true),
            locks,
            after,
            next,
        ),
    ensures
        sending == before,
        step.action == MonitorActionView::Send(
            OutgoingView::NewTemplate { template, future_template: false },
        ),
        after.stale == later.stale,
        after.prev_hash == later.prev_hash,
        after.templates == later.templates.insert(template.template_id, template),
{
}

/// Once a new template has been delivered, whichever way, it can be requested, unless its
/// number is one that has become stale.
pub proof fn law_delivered_template_can_be_requested(
    before: ServiceView,
    state: MonitorStateView,
    template: StoredTemplate,
    thread: Capability,
    locks: Locks,
    after: ServiceView,
    step: MonitorStepView,
)
    requires
        state == (MonitorStateView::SendingPrevHash { thread, template }) || state == (
        MonitorStateView::SendingCurrent { thread, template }),
        healthy(locks),
        !before.stale.contains(template.template_id),
        crate::template_monitor::monitor_transition(
            before,
            state,
            MonitorEvent::Sent(true),
            locks,
            after,
            step,
        ),
    ensures
        after.transaction_data_answer(template.template_id) == (
        OutgoingView::RequestTransactionDataSuccess { template }),
{
}

/// The block to build on is sent right after the template announced for it was
/// delivered, and at no other time.
pub proof fn law_prev_hash_follows_its_template(
    before: ServiceView,
    state: MonitorStateView,
    event: MonitorEvent,
    locks: Locks,
    after: ServiceView,
    step: MonitorStepView,
    template: StoredTemplate,
)
    requires
        crate::template_monitor::monitor_transition(before, state, event, locks, after, step),
    ensures
        (step.action == MonitorActionView::Send(OutgoingView::SetNewPrevHash { template })) <==> (
        state is SendingFuture && state->SendingFuture_template == template && event
            == MonitorEvent::Sent(true)),
{
}

/// The event brings bad news.
pub open spec fn bad_news(event: MonitorEvent) -> bool {
    match event {
        MonitorEvent::ThreadMade(Err(_)) => true,
        MonitorEvent::WaitNotRequested(_) => true,
        MonitorEvent::WaitFailed(_) => true,
        MonitorEvent::NextTemplate(Err(error)) => !crate::error::null_capability(error),
        MonitorEvent::TemplateFetched(Err(_)) => true,
        MonitorEvent::ClientDestroyed(Err(_)) => true,
        MonitorEvent::Sent(false) => true,
        _ => false,
    }
}

/// The task that stands at `state` awaits `event`.
pub open spec fn awaits(state: MonitorStateView, event: MonitorEvent) -> bool {
    match event {
        MonitorEvent::Started => state is Starting,
        MonitorEvent::ThreadMade(_) => state is MakingThread,
        MonitorEvent::WaitNotRequested(_) => state is Waiting,
        MonitorEvent::GlobalCancelled => state is Waiting,
        MonitorEvent::TemplateCancelled => state is Waiting,
        MonitorEvent::WaitFailed(_) => state is Waiting,
        MonitorEvent::NextTemplate(_) => state is Waiting,
        MonitorEvent::Interrupted => state is Interrupting,
        MonitorEvent::TemplateFetched(_) => state is Fetching,
        MonitorEvent::ClientDestroyed(_) => state is Destroying,
        MonitorEvent::Sent(_) => state is SendingFuture || state is SendingPrevHash || state
            is SendingCurrent,
    }
}

/// The template monitor ends the connection when it gets bad news it waited for. It does
/// so for no other reason than that, a missing template client or previous hash, or a
/// poisoned lock.
pub proof fn law_bad_news_ends_the_connection(
    before: ServiceView,
    state: MonitorStateView,
    event: MonitorEvent,
    locks: Locks,
    after: ServiceView,
    step: MonitorStepView,
)
    requires
        crate::template_monitor::monitor_transition(before, state, event, locks, after, step),
    ensures
        awaits(state, event) && bad_news(event) ==> step.cancel_global,
        step.cancel_global ==> awaits(state, event) && (bad_news(event) || before.template_client
            is None || before.prev_hash is None || !healthy(locks)),
{
}

/// The template monitor goes on after bad news in one case alone: if the node does not
/// let go of a template, the others are left with it and the new one is still announced.
pub proof fn law_failed_destroy_still_announces(
    before: ServiceView,
    state: MonitorStateView,
    event: MonitorEvent,
    locks: Locks,
    after: ServiceView,
    step: MonitorStepView,
)
    requires
        crate::template_monitor::monitor_transition(before, state, event, locks, after, step),
        awaits(state, event),
        bad_news(event),
    ensures
        match state {
            MonitorStateView::Destroying { template, .. } => step.action
                == MonitorActionView::Send(
                OutgoingView::NewTemplate { template, future_template: true },
            ),
            _ => step == crate::template_monitor::stop(true),
        },
{
}

/// An event that the template monitor does not await changes nothing; one that has
/// stopped awaits none.
pub proof fn law_unawaited_events_change_nothing(
    before: ServiceView,
    state: MonitorStateView,
    event: MonitorEvent,
    locks: Locks,
    after: ServiceView,
    step: MonitorStepView,
)
    requires
        crate::template_monitor::monitor_transition(before, state, event, locks, after, step),
        !awaits(state, event) || state is Stopped,
    ensures
        after == before,
        step == crate::template_monitor::go_on(state, MonitorActionView::KeepWaiting),
{
}

/// A template monitor that is told to end calls off its wait, then stops and leaves the
/// connection alone.
pub proof fn law_cancelled_monitor_calls_off_its_wait(
    before: ServiceView,
    thread: Capability,
    template_client: Capability,
    event: MonitorEvent,
    locks: Locks,
    after: ServiceView,
    step: MonitorStepView,
    later: ServiceView,
    end: ServiceView,
    last: MonitorStepView,
)
    requires
        event is GlobalCancelled || event is TemplateCancelled,
        crate::template_monitor::monitor_transition(
            before,
            MonitorStateView::Waiting { thread, template_client },
            event,
            locks,
            after,
            step,
        ),
        crate::template_monitor::monitor_transition(
            later,
            step.state,
            MonitorEvent::Interrupted,
            locks,
            end,
            last,
        ),
    ensures
        after == before,
        step.action == (MonitorActionView::InterruptWait { template_client }),
        !step.cancel_global,
        end == later,
        last == crate::template_monitor::stop(false),
{
}

/// When the time for a wait is up, the same wait begins anew, unless another task has
/// put another template in place of the one it follows.
pub proof fn law_timeout_waits_again(
    before: ServiceView,
    thread: Capability,
    template_client: Capability,
    error: capnp::Error,
    locks: Locks,
    after: ServiceView,
    step: MonitorStepView,
)
    requires
        crate::error::null_capability(error),
        before.template_client == Some(template_client),
        crate::template_monitor::monitor_transition(
            before,
            MonitorStateView::Waiting { thread, template_client },
            MonitorEvent::NextTemplate(Err(error)),
            locks,
            after,
            step,
        ),
    ensures
        after == before,
        !step.cancel_global,
        step.state == (MonitorStateView::Waiting { thread, template_client }),
        step.action matches MonitorActionView::WaitNext {
            template_client: asked,
            thread: blocked,
            ..
        } && asked == template_client && blocked == thread,
{
}

/// The template monitor keeps what is set up with the connection, and what the other
/// task keeps count of.
pub proof fn law_monitor_keeps_the_connection(
    before: ServiceView,
    state: MonitorStateView,
    event: MonitorEvent,
    locks: Locks,
    after: ServiceView,
    step: MonitorStepView,
)
    requires
        crate::template_monitor::monitor_transition(before, state, event, locks, after, step),
    ensures
        after.thread_map == before.thread_map,
        after.thread_ipc_client == before.thread_ipc_client,
        after.fee_threshold == before.fee_threshold,
        after.constraints_counter == before.constraints_counter,
        after.template_token_cancelled == before.template_token_cancelled,
        before.template_client is Some ==> after.template_client is Some,
        before.prev_hash is Some ==> after.prev_hash is Some,
{
}

/// Templates become stale, or are kept no longer, by a change of the chain tip alone.
pub proof fn law_only_a_tip_change_retires_templates(
    before: ServiceView,
    state: MonitorStateView,
    event: MonitorEvent,
    locks: Locks,
    after: ServiceView,
    step: MonitorStepView,
)
    requires
        crate::template_monitor::monitor_transition(before, state, event, locks, after, step),
        after.stale != before.stale || !before.templates.dom().subset_of(after.templates.dom()),
    ensures
        state matches MonitorStateView::Fetching { thread } && (event matches
            MonitorEvent::TemplateFetched(Ok(template)) && tip_changes(
            before,
            thread,
            template,
            locks,
            after,
            step,
        )),
{
}

/// The task that takes messages leaves alone which templates are kept, which are stale
/// and which block is built on.
pub proof fn law_incoming_task_keeps_the_templates(
    before: ServiceView,
    state: IncomingState,
    event: IncomingEvent,
)
    ensures
        ({
            let after = crate::incoming_monitor::incoming_effect(before, state, event);
            &&& after.templates == before.templates
            &&& after.stale == before.stale
            &&& after.prev_hash == before.prev_hash
            &&& after.thread_map == before.thread_map
            &&& after.thread_ipc_client == before.thread_ipc_client
            &&& after.fee_threshold == before.fee_threshold
        }),
{
}

/// Both tasks keep every template under its own number.
pub proof fn law_templates_stay_under_their_numbers(
    before: ServiceView,
    state: MonitorStateView,
    event: MonitorEvent,
    incoming: IncomingState,
    incoming_event: IncomingEvent,
    locks: Locks,
    after: ServiceView,
    step: MonitorStepView,
)
    requires
        before.well_formed(),
        crate::template_monitor::monitor_transition(before, state, event, locks, after, step),
    ensures
        after.well_formed(),
        crate::incoming_monitor::incoming_effect(before, incoming, incoming_event).well_formed(),
{
}

/// The template that the monitor at `state` has in hand.
pub open spec fn in_hand(state: MonitorStateView) -> Option<StoredTemplate> {
    match state {
        MonitorStateView::Destroying { template, .. } => Some(template),
        MonitorStateView::SendingFuture { template, .. } => Some(template),
        MonitorStateView::SendingPrevHash { template, .. } => Some(template),
        MonitorStateView::SendingCurrent { template, .. } => Some(template),
        _ => None,
    }
}

/// Every template that is kept, and the one that the monitor at `state` has in hand,
/// builds on the block that the newest one builds on.
pub open spec fn builds_on_tip(service: ServiceView, state: MonitorStateView) -> bool {
    &&& service.all_on_tip()
    &&& in_hand(state) matches Some(template) ==> service.on_tip(template)
}

/// While no lock is poisoned, the templates build on the current chain tip after each
/// step of the template monitor. A poisoned lock ends the connection.
pub proof fn law_monitor_builds_on_the_tip(
    before: ServiceView,
    state: MonitorStateView,
    event: MonitorEvent,
    locks: Locks,
    after: ServiceView,
    step: MonitorStepView,
)
    requires
        builds_on_tip(before, state),
        crate::template_monitor::monitor_transition(before, state, event, locks, after, step),
    ensures
        builds_on_tip(after, step.state) || (!healthy(locks) && step
            == crate::template_monitor::stop(true)),
{
}

/// A step of one of the two tasks of a connection, and what came of the await before it.
pub enum TaskStep {
    /// The template monitor goes on.
    Monitor { event: MonitorEvent, step: MonitorStepView },
    /// The task that takes messages goes on.
    Incoming { at: IncomingState, gets: IncomingEvent },
    /// A template monitor that has stopped gives way to another.
    MonitorReplaced,
}

/// A run of a connection with one template monitor at a time, from before its first
/// template on, while no lock is poisoned: step `i` finds the shared state
/// `services[i]` and the monitor at `states[i]`.
pub open spec fn connection_run(
    services: Seq<ServiceView>,
    states: Seq<MonitorStateView>,
    steps: Seq<TaskStep>,
) -> bool {
    &&& services.len() == steps.len() + 1
    &&& states.len() == steps.len() + 1
    &&& services[0].templates == Map::<u64, StoredTemplate>::empty()
    &&& states[0] is Starting
    &&& forall|i: int|
        0 <= i < steps.len() ==> match #[trigger] steps[i] {
            TaskStep::Monitor { event, step } => {
                &&& crate::template_monitor::monitor_transition(
                    services[i],
                    states[i],
                    event,
                    Locks { template_data: Lock::Healthy, stale_template_ids: Lock::Healthy },
                    services[i + 1],
                    step,
                )
                &&& states[i + 1] == step.state
            },
            TaskStep::Incoming { at, gets } => {
                &&& services[i + 1] == crate::incoming_monitor::incoming_effect(
                    services[i],
                    at,
                    gets,
                )
                &&& states[i + 1] == states[i]
            },
            TaskStep::MonitorReplaced => {
                &&& services[i + 1] == services[i]
                &&& states[i] is Stopped
                &&& states[i + 1] is Starting
            },
        }
}

/// Throughout a connection, every template that is kept builds on the current chain tip,
/// and so does the one that the monitor has in hand.
pub proof fn law_kept_templates_build_on_the_tip(
    services: Seq<ServiceView>,
    states: Seq<MonitorStateView>,
    steps: Seq<TaskStep>,
    i: int,
)
    requires
        connection_run(services, states, steps),
        0 <= i < services.len(),
    ensures
        builds_on_tip(services[i], states[i]),
    decreases i,
{
    if i > 0 {
        law_kept_templates_build_on_the_tip(services, states, steps, i - 1);
        match steps[i - 1] {
            TaskStep::Monitor { event, step } => {
                law_monitor_builds_on_the_tip(
                    services[i - 1],
                    states[i - 1],
                    event,
                    Locks { template_data: Lock::Healthy, stale_template_ids: Lock::Healthy },
                    services[i],
                    step,
                );
            },
            TaskStep::Incoming { at, gets } => {
                law_incoming_task_keeps_the_templates(services[i - 1], at, gets);
            },
            TaskStep::MonitorReplaced => {},
        }
    }
}

/// Before the first template client is made, a template monitor sends nothing: it stops
/// as soon as it would wait, and ends the connection.
pub proof fn law_no_templates_before_constraints(
    before: ServiceView,
    thread: Capability,
    locks: Locks,
    after: ServiceView,
    step: MonitorStepView,
)
    requires
        before.template_client is None,
        crate::template_monitor::monitor_transition(
            before,
            MonitorStateView::MakingThread,
            MonitorEvent::ThreadMade(Ok(thread)),
            locks,
            after,
            step,
        ),
    ensures
        after == before,
        step == crate::template_monitor::stop(true),
{
}

/// A template monitor is started just when the node has made a client for a peer's
/// constraints, and only such constraints have one made.
pub proof fn law_monitor_starts_only_for_constraints(
    service: ServiceView,
    state: IncomingState,
    event: IncomingEvent,
    locks: Locks,
)
    ensures
        crate::incoming_monitor::incoming_step(
            service,
            state,
            event,
            locks,
        ).spawn_template_monitor <==> state is CreatingTemplateClient && (event matches
            IncomingEvent::TemplateClientCreated(created) && created is Ok),
        crate::incoming_monitor::incoming_step(service, state, event, locks).state
            is CreatingTemplateClient ==> state is CreatingTemplateClient || (event matches
            IncomingEvent::Received(message) && message is CoinbaseOutputConstraints),
        crate::incoming_monitor::incoming_effect(service, state, event).template_client
            != service.template_client ==> crate::incoming_monitor::incoming_step(
            service,
            state,
            event,
            locks,
        ).spawn_template_monitor,
{
}

/// A run of the task that takes messages, from its start on: at `states[i]` it gets
/// `events[i]` while the shared state is `services[i]`.
pub open spec fn incoming_run(
    services: Seq<ServiceView>,
    states: Seq<IncomingState>,
    events: Seq<IncomingEvent>,
    locks: Seq<Locks>,
) -> bool {
    &&& services.len() == events.len()
    &&& locks.len() == events.len()
    &&& states.len() == events.len() + 1
    &&& states[0] == IncomingState::Receiving
    &&& forall|i: int|
        0 <= i < events.len() ==> states[i + 1] == crate::incoming_monitor::incoming_step(
            services[i],
            states[i],
            #[trigger] events[i],
            locks[i],
        ).state
}

/// Until the first constraints of a peer have come in, nothing is distributed: no
/// template client is asked for, no template monitor is started, and what is sent are
/// answers to requests.
pub proof fn law_nothing_distributed_before_constraints(
    services: Seq<ServiceView>,
    states: Seq<IncomingState>,
    events: Seq<IncomingEvent>,
    locks: Seq<Locks>,
    i: int,
)
    requires
        incoming_run(services, states, events, locks),
        0 <= i < events.len(),
        forall|j: int|
            0 <= j <= i ==> !(#[trigger] events[j] matches IncomingEvent::Received(message)
                && message is CoinbaseOutputConstraints),
    ensures
        ({
            let step = crate::incoming_monitor::incoming_step(
                services[i],
                states[i],
                events[i],
                locks[i],
            );
            &&& !step.spawn_template_monitor
            &&& !(step.action is CreateTemplateClient)
            &&& step.action matches IncomingActionView::Send(message) ==> message
                is RequestTransactionDataSuccess || message is RequestTransactionDataError
        }),
        !(states[i + 1] is CreatingTemplateClient),
    decreases i,
{
    assert(!(events[i] matches IncomingEvent::Received(message) && message
        is CoinbaseOutputConstraints));
    if i > 0 {
        law_nothing_distributed_before_constraints(services, states, events, locks, i - 1);
    }
}

/// The template monitor that runs is told to end before another is started: constraints
/// fire its token, and the new one has a token of its own that is not fired.
pub proof fn law_one_template_monitor_at_a_time(
    service: ServiceView,
    constraints: crate::messages::CoinbaseOutputConstraints,
    client: Capability,
    locks: Locks,
)
    ensures
        ({
            let received = IncomingEvent::Received(
                IncomingMessage::CoinbaseOutputConstraints(constraints),
            );
            let asked = crate::incoming_monitor::incoming_step(
                service,
                IncomingState::Receiving,
                received,
                locks,
            );
            let waiting = crate::incoming_monitor::incoming_effect(
                service,
                IncomingState::Receiving,
                received,
            );
            let created = IncomingEvent::TemplateClientCreated(Ok(client));
            let made = crate::incoming_monitor::incoming_step(
                waiting,
                asked.state,
                created,
                locks,
            );
            let after = crate::incoming_monitor::incoming_effect(waiting, asked.state, created);
            &&& waiting.template_token_cancelled
            &&& !asked.spawn_template_monitor
            &&& made.spawn_template_monitor
            &&& !after.template_token_cancelled
            &&& after.template_client == Some(client)
            &&& after.templates == service.templates
            &&& after.stale == service.stale
        }),
{
}

/// The task that takes messages sends nothing but answers to requests for transactions.
pub proof fn law_incoming_task_sends_only_answers(
    service: ServiceView,
    state: IncomingState,
    event: IncomingEvent,
    locks: Locks,
    message: OutgoingView,
)
    requires
        crate::incoming_monitor::incoming_step(service, state, event, locks).action
            == IncomingActionView::Send(message),
    ensures
        message is RequestTransactionDataSuccess || message is RequestTransactionDataError,
        event matches IncomingEvent::Received(received) && (received matches
            IncomingMessage::RequestTransactionData(request) && message
            == service.transaction_data_answer(request.template_id)),
{
}

/// A message that only a template provider sends changes nothing, and the next one is
/// taken.
pub proof fn law_unexpected_messages_are_ignored(
    service: ServiceView,
    message: IncomingMessage,
    locks: Locks,
)
    requires
        !(message is CoinbaseOutputConstraints),
        !(message is RequestTransactionData),
        !(message is SubmitSolution),
    ensures
        crate::incoming_monitor::incoming_effect(
            service,
            IncomingState::Receiving,
            IncomingEvent::Received(message),
        ) == service,
        crate::incoming_monitor::incoming_step(
            service,
            IncomingState::Receiving,
            IncomingEvent::Received(message),
            locks,
        ) == crate::incoming_monitor::receive_next(),
{
}

/// A solution is handed to the node just when its template is kept, be it stale or not;
/// one for another template ends the connection.
pub proof fn law_solutions_need_a_kept_template(
    service: ServiceView,
    solution: SubmitSolution,
    locks: Locks,
)
    requires
        healthy(locks),
    ensures
        crate::incoming_monitor::incoming_step(
            service,
            IncomingState::Receiving,
            IncomingEvent::Received(IncomingMessage::SubmitSolution(solution)),
            locks,
        ) == if service.templates.contains_key(solution.template_id) {
            crate::incoming_monitor::incoming_goes_on(
                IncomingState::Submitting,
                IncomingActionView::Submit {
                    template: service.templates[solution.template_id],
                    thread: service.thread_ipc_client,
                    solution,
                },
            )
        } else {
            crate::incoming_monitor::stop_incoming(true)
        },
{
}

/// A handler that fails ends the connection with its task; all that is asked for after
/// success is the next message.
pub proof fn law_failed_handlers_end_the_connection(
    service: ServiceView,
    created: Result<Capability, BitcoinCoreSv2Error>,
    sent: bool,
    outcome: Result<(), TemplateDataError>,
    locks: Locks,
)
    ensures
        ({
            let step = crate::incoming_monitor::incoming_step(
                service,
                IncomingState::CreatingTemplateClient,
                IncomingEvent::TemplateClientCreated(created),
                locks,
            );
            &&& created is Err <==> step == crate::incoming_monitor::stop_incoming(true)
            &&& created is Ok <==> step.action is Receive
        }),
        ({
            let step = crate::incoming_monitor::incoming_step(
                service,
                IncomingState::Answering,
                IncomingEvent::AnswerSent(sent),
                locks,
            );
            &&& !sent <==> step == crate::incoming_monitor::stop_incoming(true)
            &&& sent <==> step == crate::incoming_monitor::receive_next()
        }),
        ({
            let step = crate::incoming_monitor::incoming_step(
                service,
                IncomingState::Submitting,
                IncomingEvent::SolutionSubmitted(outcome),
                locks,
            );
            &&& outcome is Err <==> step == crate::incoming_monitor::stop_incoming(true)
            &&& outcome is Ok <==> step == crate::incoming_monitor::receive_next()
        }),
{
}

/// `steps` are what the template monitor does from a change of the chain tip on, as long
/// as the node lets go of one template after the other: `services` is the shared state
/// before each.
pub open spec fn destroys_in_turn(
    services: Seq<ServiceView>,
    steps: Seq<MonitorStepView>,
    locks: Locks,
) -> bool {
    &&& services.len() == steps.len()
    &&& forall|i: int|
        1 <= i < steps.len() ==> crate::template_monitor::monitor_transition(
            #[trigger] services[i],
            steps[i - 1].state,
            MonitorEvent::ClientDestroyed(Ok(())),
            locks,
            services[i],
            steps[i],
        )
}

/// The step after `done` of the templates in `displaced` are gone.
proof fn lemma_destroys_in_turn(
    services: Seq<ServiceView>,
    steps: Seq<MonitorStepView>,
    locks: Locks,
    thread: Capability,
    template: StoredTemplate,
    displaced: Seq<StoredTemplate>,
    done: int,
)
    requires
        destroys_in_turn(services, steps, locks),
        0 <= done < steps.len(),
        done <= displaced.len(),
        steps[0] == crate::template_monitor::destroy_next(
            services[0],
            thread,
            template,
            displaced,
        ),
    ensures
        steps[done] == crate::template_monitor::destroy_next(
            services[done],
            thread,
            template,
            displaced.take(displaced.len() - done),
        ),
    decreases done,
{
    if done == 0 {
        assert(displaced.take(displaced.len() as int) =~= displaced);
    } else {
        lemma_destroys_in_turn(services, steps, locks, thread, template, displaced, done - 1);
        let left = displaced.take(displaced.len() - (done - 1));
        assert(left.drop_last() =~= displaced.take(displaced.len() - done));
        assert(crate::template_monitor::monitor_transition(
            services[done],
            steps[done - 1].state,
            MonitorEvent::ClientDestroyed(Ok(())),
            locks,
            services[done],
            steps[done],
        ));
    }
}

/// Unless the node refuses, a change of the chain tip has it let go of every template
/// that was kept, of each once, and only then is the new one announced.
pub proof fn law_every_displaced_template_is_destroyed(
    before: ServiceView,
    thread: Capability,
    template: StoredTemplate,
    locks: Locks,
    after: ServiceView,
    services: Seq<ServiceView>,
    steps: Seq<MonitorStepView>,
) -> (displaced: Seq<StoredTemplate>)
    requires
        destroys_in_turn(services, steps, locks),
        steps.len() == before.templates.dom().len() + 1,
        services[0] == before,
        tip_changes(before, thread, template, locks, after, steps[0]),
    ensures
        crate::service::lists_once(displaced, before.templates),
        displaced.len() == before.templates.dom().len(),
        forall|i: int|
            0 <= i < displaced.len() ==> (#[trigger] steps[i].action matches
                MonitorActionView::DestroyClient { client, thread: on } && client
                == displaced[displaced.len() - 1 - i].ipc_client && on
                == services[i].thread_ipc_client),
        steps.last() == crate::template_monitor::announce_future(thread, template, false),
{
    let displaced = choose|displaced: Seq<StoredTemplate>| #[trigger]
        crate::service::lists_once(displaced, before.templates) && steps[0]
            == crate::template_monitor::destroy_next(before, thread, template, displaced);
    let ids = choose|ids: Seq<u64>| #[trigger]
        crate::service::lists_by_id(ids, displaced, before.templates);
    assert(displaced.len() == ids.len());
    assert forall|i: int| 0 <= i < displaced.len() implies (#[trigger] steps[i].action matches
        MonitorActionView::DestroyClient { client, thread: on } && client
        == displaced[displaced.len() - 1 - i].ipc_client && on == services[i].thread_ipc_client) by {
        lemma_destroys_in_turn(services, steps, locks, thread, template, displaced, i);
        let left = displaced.take(displaced.len() - i);
        assert(left.last() == displaced[displaced.len() - 1 - i]);
    }
    lemma_destroys_in_turn(
        services,
        steps,
        locks,
        thread,
        template,
        displaced,
        displaced.len() as int,
    );
    displaced
}

} // verus!
