//! What holds over whole runs of the service's tasks.
use crate::incoming_monitor::{IncomingEvent, IncomingState};
use crate::messages::IncomingMessage;
use crate::service::{Locks, ServiceView};
use crate::template_monitor::{MonitorEvent, MonitorStateView, MonitorStepView};
use vstd::prelude::*;

verus! {

/// A handler is at work while the task that takes messages stands at `state`.
pub open spec fn handling(state: IncomingState) -> bool {
    state is CreatingTemplateClient || state is Answering || state is Submitting
}

/// The handler that is at work at `state` returns with `event`.
pub open spec fn handler_returns(state: IncomingState, event: IncomingEvent) -> bool {
    match event {
        IncomingEvent::TemplateClientCreated(_) => state is CreatingTemplateClient,
        IncomingEvent::AnswerSent(_) => state is Answering,
        IncomingEvent::SolutionSubmitted(_) => state is Submitting,
        _ => false,
    }
}

/// Step `i` of a run of the task that takes messages starts a handler.
pub open spec fn starts_handler(
    services: Seq<ServiceView>,
    states: Seq<IncomingState>,
    events: Seq<IncomingEvent>,
    locks: Seq<Locks>,
    i: int,
) -> bool {
    let action = crate::incoming_monitor::incoming_step(
        services[i],
        states[i],
        events[i],
        locks[i],
    ).action;
    action is CreateTemplateClient || action is Send || action is Submit
}

/// A handler that was started at `first` is still at work at `now`, or has returned
/// before.
proof fn lemma_handler_goes_on(
    services: Seq<ServiceView>,
    states: Seq<IncomingState>,
    events: Seq<IncomingEvent>,
    locks: Seq<Locks>,
    first: int,
    now: int,
)
    requires
        crate::service_laws::incoming_run(services, states, events, locks),
        0 <= first < now < states.len(),
        starts_handler(services, states, events, locks, first),
    ensures
        handling(states[first + 1]),
        states[now] == states[first + 1] || exists|k: int|
            first < k < now && #[trigger] handler_returns(states[k], events[k]) && states[k]
                == states[first + 1],
    decreases now,
{
    let started = events[first];
    if now > first + 1 {
        lemma_handler_goes_on(services, states, events, locks, first, now - 1);
        let event = events[now - 1];
        if states[now - 1] == states[first + 1] {
            assert(states[now] == states[first + 1] || handler_returns(states[now - 1], event));
        }
    }
}

/// The task that takes messages starts a handler only once the one before it has
/// returned: between two that start, at `first` and at `second`, the first returns.
pub proof fn law_one_handler_at_a_time(
    services: Seq<ServiceView>,
    states: Seq<IncomingState>,
    events: Seq<IncomingEvent>,
    locks: Seq<Locks>,
    first: int,
    second: int,
) -> (returned: int)
    requires
        crate::service_laws::incoming_run(services, states, events, locks),
        0 <= first < second < events.len(),
        starts_handler(services, states, events, locks, first),
        starts_handler(services, states, events, locks, second),
    ensures
        first < returned < second,
        states[returned] == states[first + 1],
        handler_returns(states[returned], events[returned]),
{
    lemma_handler_goes_on(services, states, events, locks, first, second);
    assert(states[second] is Receiving);
    choose|k: int|
        first < k < second && #[trigger] handler_returns(states[k], events[k]) && states[k]
            == states[first + 1]
}

/// A run of a template monitor, from its start on: at `states[i]` it gets `events[i]`
/// while the shared state is `befores[i]`, takes `steps[i]` and leaves `afters[i]`.
pub open spec fn monitor_run(
    befores: Seq<ServiceView>,
    states: Seq<MonitorStateView>,
    events: Seq<MonitorEvent>,
    locks: Seq<Locks>,
    afters: Seq<ServiceView>,
    steps: Seq<MonitorStepView>,
) -> bool {
    &&& befores.len() == events.len()
    &&& locks.len() == events.len()
    &&& afters.len() == events.len()
    &&& steps.len() == events.len()
    &&& states.len() == events.len() + 1
    &&& states[0] is Starting
    &&& forall|i: int|
        0 <= i < events.len() ==> states[i + 1] == steps[i].state
            && crate::template_monitor::monitor_transition(
            befores[i],
            states[i],
            #[trigger] events[i],
            locks[i],
            afters[i],
            steps[i],
        )
}

/// `event` says that a token which ends the monitor was fired.
pub open spec fn token_fired(event: MonitorEvent) -> bool {
    event is GlobalCancelled || event is TemplateCancelled
}

/// A monitor that calls off its wait does so because a token was fired.
proof fn lemma_interrupted_by_a_token(
    befores: Seq<ServiceView>,
    states: Seq<MonitorStateView>,
    events: Seq<MonitorEvent>,
    locks: Seq<Locks>,
    afters: Seq<ServiceView>,
    steps: Seq<MonitorStepView>,
    now: int,
)
    requires
        monitor_run(befores, states, events, locks, afters, steps),
        0 <= now < states.len(),
        states[now] is Interrupting,
    ensures
        exists|k: int| 0 <= k < now && states[k] is Waiting && #[trigger] token_fired(events[k]),
    decreases now,
{
    let event = events[now - 1];
    if states[now - 1] is Interrupting {
        lemma_interrupted_by_a_token(befores, states, events, locks, afters, steps, now - 1);
    } else {
        assert(token_fired(events[now - 1]));
    }
}

/// A template monitor stops only after a token was fired that it looks out for, or with
/// the end of the whole connection.
pub proof fn law_monitor_stops_for_a_token_or_with_the_connection(
    befores: Seq<ServiceView>,
    states: Seq<MonitorStateView>,
    events: Seq<MonitorEvent>,
    locks: Seq<Locks>,
    afters: Seq<ServiceView>,
    steps: Seq<MonitorStepView>,
    i: int,
)
    requires
        monitor_run(befores, states, events, locks, afters, steps),
        0 <= i < steps.len(),
        !(states[i] is Stopped),
        steps[i].state is Stopped,
    ensures
        steps[i].cancel_global || exists|k: int|
            0 <= k < i && states[k] is Waiting && #[trigger] token_fired(events[k]),
{
    let event = events[i];
    if states[i] is Interrupting {
        lemma_interrupted_by_a_token(befores, states, events, locks, afters, steps, i);
    }
}

/// A run of the task that takes messages, from its start on: at `states[i]` it gets
/// `events[i]` while the shared state is `services[i]`. What is counted and the token of
/// the template monitor are left alone in between, as the template monitor leaves them.
pub open spec fn undisturbed_run(
    services: Seq<ServiceView>,
    states: Seq<IncomingState>,
    events: Seq<IncomingEvent>,
    locks: Seq<Locks>,
) -> bool {
    &&& services.len() == events.len() + 1
    &&& states.len() == events.len() + 1
    &&& locks.len() == events.len()
    &&& states[0] is Receiving
    &&& forall|i: int|
        0 <= i < events.len() ==> {
            let after = crate::incoming_monitor::incoming_effect(
                services[i],
                states[i],
                #[trigger] events[i],
            );
            &&& states[i + 1] == crate::incoming_monitor::incoming_step(
                services[i],
                states[i],
                events[i],
                locks[i],
            ).state
            &&& services[i + 1].constraints_counter == after.constraints_counter
            &&& services[i + 1].template_token_cancelled == after.template_token_cancelled
        }
}

/// Which of the template monitors that were started before step `i` have had their token
/// fired, in the order of their start. The shared state knows the newest token alone.
pub open spec fn fired_tokens(
    services: Seq<ServiceView>,
    states: Seq<IncomingState>,
    events: Seq<IncomingEvent>,
    locks: Seq<Locks>,
    i: int,
) -> Seq<bool>
    decreases i,
{
    if i <= 0 {
        Seq::empty()
    } else {
        let fired = fired_tokens(services, states, events, locks, i - 1);
        let newest = services[i].template_token_cancelled;
        if crate::incoming_monitor::incoming_step(
            services[i - 1],
            states[i - 1],
            events[i - 1],
            locks[i - 1],
        ).spawn_template_monitor {
            fired.push(newest)
        } else if fired.len() == 0 {
            fired
        } else {
            fired.update(fired.len() - 1, newest)
        }
    }
}

/// At every point of a run, the tokens of all template monitors but the newest have been
/// fired.
pub proof fn law_only_the_newest_monitor_goes_on(
    services: Seq<ServiceView>,
    states: Seq<IncomingState>,
    events: Seq<IncomingEvent>,
    locks: Seq<Locks>,
    i: int,
)
    requires
        undisturbed_run(services, states, events, locks),
        0 <= i < services.len(),
    ensures
        ({
            let fired = fired_tokens(services, states, events, locks, i);
            &&& forall|j: int| 0 <= j < fired.len() - 1 ==> #[trigger] fired[j]
            &&& fired.len() > 0 ==> fired.last() == services[i].template_token_cancelled
        }),
        states[i] is CreatingTemplateClient ==> services[i].template_token_cancelled,
    decreases i,
{
    if i > 0 {
        law_only_the_newest_monitor_goes_on(services, states, events, locks, i - 1);
        let event = events[i - 1];
    }
}

/// The `k`-th two events of `events` are constraints of a peer and the client that the
/// node made for them.
pub open spec fn constraints_met(events: Seq<IncomingEvent>, k: int) -> bool {
    &&& events[2 * k] matches IncomingEvent::Received(
        IncomingMessage::CoinbaseOutputConstraints(_),
    )
    &&& events[2 * k + 1] matches IncomingEvent::TemplateClientCreated(Ok(_))
}

/// Constraints that come in a row and are all met are counted, each by one, and start a
/// template monitor each. Then the token of the last of these is the only one that has
/// not been fired, and the next message is awaited. The count starts over behind the
/// greatest number.
pub proof fn law_constraints_in_a_row(
    services: Seq<ServiceView>,
    states: Seq<IncomingState>,
    events: Seq<IncomingEvent>,
    locks: Seq<Locks>,
    n: int,
)
    requires
        undisturbed_run(services, states, events, locks),
        0 <= n,
        2 * n <= events.len(),
        forall|k: int| 0 <= k < n ==> #[trigger] constraints_met(events, k),
    ensures
        ({
            let fired = fired_tokens(services, states, events, locks, 2 * n);
            &&& services[2 * n].constraints_counter == (services[0].constraints_counter + n)
                % 0x1_0000_0000_0000_0000
            &&& states[2 * n] is Receiving
            &&& fired.len() == n
            &&& forall|j: int| 0 <= j < n ==> #[trigger] fired[j] == (j != n - 1)
        }),
    decreases n,
{
    if n > 0 {
        law_constraints_in_a_row(services, states, events, locks, n - 1);
        assert(constraints_met(events, n - 1));
        let at = 2 * (n - 1);
        let received = events[at];
        let created = events[at + 1];
        assert(states[at + 1] is CreatingTemplateClient);
        reveal_with_fuel(fired_tokens, 3);
        law_only_the_newest_monitor_goes_on(services, states, events, locks, 2 * n);
    }
}

} // verus!
