//! What the template monitor does with each thing that it awaits, whatever the state that
//! the tasks share.
use crate::error::{BitcoinCoreSv2Error, TemplateDataError};
use crate::messages::{OutgoingView, StoredTemplate};
use crate::service::{Lock, Locks, ServiceView};
use crate::template_monitor::{
    MonitorActionView, MonitorEvent, MonitorStateView, MonitorStepView, WAIT_NEXT_TIMEOUT_MS,
};
use crate::types::{BlockHash, Capability};
use vstd::prelude::*;

verus! {

/// A monitor begins by asking the connection's thread map for a thread, and changes nothing
/// by that.
pub proof fn law_monitor_begins_with_a_thread(
    before: ServiceView,
    locks: Locks,
    after: ServiceView,
    step: MonitorStepView,
)
    requires
        crate::template_monitor::monitor_transition(
            before,
            MonitorStateView::Starting,
            MonitorEvent::Started,
            locks,
            after,
            step,
        ),
    ensures
        after == before,
        step.state is MakingThread,
        step.action == (MonitorActionView::MakeThread { thread_map: before.thread_map }),
        !step.cancel_global,
{
}

/// With a thread made for it, a monitor waits on that thread for what follows the newest
/// template; where there is no template, it ends the connection.
pub proof fn law_monitor_waits_on_its_own_thread(
    before: ServiceView,
    thread: Capability,
    locks: Locks,
    after: ServiceView,
    step: MonitorStepView,
)
    requires
        crate::template_monitor::monitor_transition(
            before,
            MonitorStateView::MakingThread,
            MonitorEvent::ThreadMade(Ok(thread)),
            locks,
            after,
            step,
        ),
    ensures
        after == before,
        step.cancel_global <==> before.template_client is None,
        match before.template_client {
            Some(newest) => {
                &&& step.state == (MonitorStateView::Waiting { thread, template_client: newest })
                &&& step.action is WaitNext
            },
            None => step.state is Stopped && step.action is Stop,
        },
{
}

/// Every wait is for what follows the newest template of the shared state, blocks the
/// thread of the monitor, and lasts ten seconds at most. The threshold is that of the
/// connection, read as a signed number of 64 bits. The monitor then awaits just that.
pub proof fn law_every_wait_follows_the_newest_template(
    before: ServiceView,
    state: MonitorStateView,
    event: MonitorEvent,
    locks: Locks,
    after: ServiceView,
    step: MonitorStepView,
    template_client: Capability,
    thread: Capability,
    fee_threshold: int,
    timeout_ms: int,
)
    requires
        crate::template_monitor::monitor_transition(before, state, event, locks, after, step),
        step.action == (MonitorActionView::WaitNext {
            template_client,
            thread,
            fee_threshold,
            timeout_ms,
        }),
    ensures
        before.template_client == Some(template_client),
        after.template_client == Some(template_client),
        step.state == (MonitorStateView::Waiting { thread, template_client }),
        !step.cancel_global,
        timeout_ms == 10_000,
        WAIT_NEXT_TIMEOUT_MS == 10_000,
        -0x8000_0000_0000_0000 <= fee_threshold < 0x8000_0000_0000_0000,
        before.fee_threshold == fee_threshold || before.fee_threshold == fee_threshold
            + 0x1_0000_0000_0000_0000,
        match state {
            MonitorStateView::MakingThread => event == MonitorEvent::ThreadMade(Ok(thread)),
            MonitorStateView::Waiting { thread: own, .. } => own == thread,
            MonitorStateView::SendingPrevHash { thread: own, .. } => own == thread,
            MonitorStateView::SendingCurrent { thread: own, .. } => own == thread,
            _ => false,
        },
{
}

/// A new template that the node names takes the place of the newest one, whatever else
/// the shared state holds, and it is its data that is fetched. Nothing else changes.
pub proof fn law_new_template_is_taken_up(
    before: ServiceView,
    thread: Capability,
    waited_on: Capability,
    named: Capability,
    locks: Locks,
    after: ServiceView,
    step: MonitorStepView,
)
    requires
        crate::template_monitor::monitor_transition(
            before,
            MonitorStateView::Waiting { thread, template_client: waited_on },
            MonitorEvent::NextTemplate(Ok(named)),
            locks,
            after,
            step,
        ),
    ensures
        after.template_client == Some(named),
        step.action == (MonitorActionView::FetchTemplate { template_client: named }),
        step.state == (MonitorStateView::Fetching { thread }),
        !step.cancel_global,
        after == (ServiceView { template_client: after.template_client, ..before }),
{
}

/// An answer without a capability makes a monitor wait anew on the same thread, for what
/// follows the template that is the newest by then. Any other error in its place ends the
/// connection. Nothing changes either way.
pub proof fn law_answer_without_a_template(
    before: ServiceView,
    thread: Capability,
    waited_on: Capability,
    error: capnp::Error,
    locks: Locks,
    after: ServiceView,
    step: MonitorStepView,
)
    requires
        crate::template_monitor::monitor_transition(
            before,
            MonitorStateView::Waiting { thread, template_client: waited_on },
            MonitorEvent::NextTemplate(Err(error)),
            locks,
            after,
            step,
        ),
    ensures
        after == before,
        step.cancel_global <==> !crate::error::null_capability(error)
            || before.template_client is None,
        step.cancel_global <==> step.state is Stopped && step.action is Stop,
        !step.cancel_global ==> step.action is WaitNext && step.state == (
        MonitorStateView::Waiting { thread, template_client: before.template_client->0 }),
{
}

/// The answer that names no template, given whether it is without a capability alone:
/// the same two outcomes.
pub proof fn law_timeout_or_end(
    service: ServiceView,
    thread: Capability,
    without_capability: bool,
)
    ensures
        ({
            let step = crate::template_monitor::no_next_template(
                service,
                thread,
                without_capability,
            );
            match service.template_client {
                Some(newest) if without_capability => {
                    &&& !step.cancel_global
                    &&& step.state == (MonitorStateView::Waiting {
                        thread,
                        template_client: newest,
                    })
                    &&& step.action matches MonitorActionView::WaitNext {
                        template_client,
                        thread: on,
                        fee_threshold,
                        timeout_ms,
                    } && template_client == newest && on == thread && timeout_ms == 10_000
                        && -0x8000_0000_0000_0000 <= fee_threshold < 0x8000_0000_0000_0000 && (
                    service.fee_threshold == fee_threshold || service.fee_threshold
                        == fee_threshold + 0x1_0000_0000_0000_0000)
                },
                _ => step.cancel_global && step.state is Stopped && step.action is Stop,
            }
        }),
{
}

/// A wait that is called off, for whichever reason, is called off on the template that is
/// waited on. The monitor then ends, without the connection and without a trace.
pub proof fn law_cancellation_interrupts_the_wait(
    before: ServiceView,
    thread: Capability,
    waited_on: Capability,
    event: MonitorEvent,
    locks: Locks,
    after: ServiceView,
    step: MonitorStepView,
)
    requires
        event == MonitorEvent::GlobalCancelled || event == MonitorEvent::TemplateCancelled,
        crate::template_monitor::monitor_transition(
            before,
            MonitorStateView::Waiting { thread, template_client: waited_on },
            event,
            locks,
            after,
            step,
        ),
    ensures
        after == before,
        step == (MonitorStepView {
            state: MonitorStateView::Interrupting,
            cancel_global: false,
            action: MonitorActionView::InterruptWait { template_client: waited_on },
        }),
{
}

/// Once its wait is called off a monitor ends, and leaves the connection to go on.
pub proof fn law_interrupted_monitor_ends(
    before: ServiceView,
    locks: Locks,
    after: ServiceView,
    step: MonitorStepView,
)
    requires
        crate::template_monitor::monitor_transition(
            before,
            MonitorStateView::Interrupting,
            MonitorEvent::Interrupted,
            locks,
            after,
            step,
        ),
    ensures
        after == before,
        step == (MonitorStepView {
            state: MonitorStateView::Stopped,
            cancel_global: false,
            action: MonitorActionView::Stop,
        }),
{
}

/// A monitor that gets no thread, whose wait fails, or that gets no data for a new
/// template, ends with the whole connection and changes nothing else.
pub proof fn law_failed_calls_end_everything(
    before: ServiceView,
    thread: Capability,
    waited_on: Capability,
    error: capnp::Error,
    no_data: BitcoinCoreSv2Error,
    state: MonitorStateView,
    event: MonitorEvent,
    locks: Locks,
    after: ServiceView,
    step: MonitorStepView,
)
    requires
        (state == MonitorStateView::MakingThread && event == MonitorEvent::ThreadMade(Err(error)))
            || (state == (MonitorStateView::Waiting { thread, template_client: waited_on }) && (
        event == MonitorEvent::WaitNotRequested(error) || event == MonitorEvent::WaitFailed(
            error,
        ))) || (state == (MonitorStateView::Fetching { thread }) && event
            == MonitorEvent::TemplateFetched(Err(no_data))),
        crate::template_monitor::monitor_transition(before, state, event, locks, after, step),
    ensures
        after == before,
        step == (MonitorStepView {
            state: MonitorStateView::Stopped,
            cancel_global: true,
            action: MonitorActionView::Stop,
        }),
{
}

/// A template is not distributed while it is not known which block is built on: the
/// connection ends, and nothing changes.
pub proof fn law_template_without_a_tip_ends_everything(
    before: ServiceView,
    thread: Capability,
    template: StoredTemplate,
    locks: Locks,
    after: ServiceView,
    step: MonitorStepView,
)
    requires
        before.prev_hash is None,
        crate::template_monitor::monitor_transition(
            before,
            MonitorStateView::Fetching { thread },
            MonitorEvent::TemplateFetched(Ok(template)),
            locks,
            after,
            step,
        ),
    ensures
        after == before,
        step == (MonitorStepView {
            state: MonitorStateView::Stopped,
            cancel_global: true,
            action: MonitorActionView::Stop,
        }),
{
}

/// A template on the current tip is sent at once, for the block being mined, whatever the
/// locks are like, and nothing changes before it is delivered.
pub proof fn law_template_on_the_tip_is_sent_at_once(
    before: ServiceView,
    thread: Capability,
    template: StoredTemplate,
    locks: Locks,
    after: ServiceView,
    step: MonitorStepView,
)
    requires
        before.prev_hash == Some(template.prev_hash),
        crate::template_monitor::monitor_transition(
            before,
            MonitorStateView::Fetching { thread },
            MonitorEvent::TemplateFetched(Ok(template)),
            locks,
            after,
            step,
        ),
    ensures
        after == before,
        step.state == (MonitorStateView::SendingCurrent { thread, template }),
        step.action == MonitorActionView::Send(
            OutgoingView::NewTemplate { template, future_template: false },
        ),
        !step.cancel_global,
{
}

/// A template on another block than the current one changes the tip. With both locks at
/// hand, the templates kept so far become the stale ones, the new template alone is kept,
/// and nothing else changes.
pub proof fn law_new_tip_replaces_what_is_kept(
    before: ServiceView,
    thread: Capability,
    tip: BlockHash,
    template: StoredTemplate,
    locks: Locks,
    after: ServiceView,
    step: MonitorStepView,
)
    requires
        before.prev_hash == Some(tip),
        tip != template.prev_hash,
        locks.template_data == Lock::Healthy,
        locks.stale_template_ids == Lock::Healthy,
        crate::template_monitor::monitor_transition(
            before,
            MonitorStateView::Fetching { thread },
            MonitorEvent::TemplateFetched(Ok(template)),
            locks,
            after,
            step,
        ),
    ensures
        after.prev_hash == Some(template.prev_hash),
        forall|id: u64| #[trigger]
            after.stale.contains(id) <==> before.templates.contains_key(id),
        forall|id: u64| #[trigger]
            after.templates.contains_key(id) <==> id == template.template_id,
        after.templates[template.template_id] == template,
        after == (ServiceView {
            prev_hash: after.prev_hash,
            stale: after.stale,
            templates: after.templates,
            ..before
        }),
        !step.cancel_global,
        step.state is SendingFuture <==> before.templates.dom().len() == 0,
        step.state is SendingFuture ==> step.state == (MonitorStateView::SendingFuture {
            thread,
            template,
        }) && step.action == MonitorActionView::Send(
            OutgoingView::NewTemplate { template, future_template: true },
        ),
        step.state is SendingFuture || step.state is Destroying,
{
    let displaced = choose|displaced: Seq<StoredTemplate>| #[trigger]
        crate::service::lists_once(displaced, before.templates) && step
            == crate::template_monitor::destroy_next(before, thread, template, displaced);
    crate::service_laws::law_list_of_kept_templates(displaced, before.templates);
}

/// The templates that a new tip displaces are handed back to the node one by one: the
/// first at once, on the connection's thread, and all the others remain for the steps to
/// come. Each is handed back once, and none is that was not kept.
pub proof fn law_new_tip_hands_back_what_was_kept(
    before: ServiceView,
    thread: Capability,
    tip: BlockHash,
    template: StoredTemplate,
    locks: Locks,
    after: ServiceView,
    step: MonitorStepView,
) -> (ids: Seq<u64>)
    requires
        before.prev_hash == Some(tip),
        tip != template.prev_hash,
        locks.template_data == Lock::Healthy,
        locks.stale_template_ids == Lock::Healthy,
        before.templates.dom().len() > 0,
        crate::template_monitor::monitor_transition(
            before,
            MonitorStateView::Fetching { thread },
            MonitorEvent::TemplateFetched(Ok(template)),
            locks,
            after,
            step,
        ),
    ensures
        ids.no_duplicates(),
        ids.len() > 0,
        forall|id: u64| #[trigger] ids.contains(id) <==> before.templates.contains_key(id),
        step.action == (MonitorActionView::DestroyClient {
            client: before.templates[ids.last()].ipc_client,
            thread: before.thread_ipc_client,
        }),
        step.state matches MonitorStateView::Destroying { thread: own, template: new, remaining }
            && own == thread && new == template && remaining.len() == ids.len() - 1 && forall|
            i: int,
        |
            0 <= i < remaining.len() ==> #[trigger] remaining[i] == before.templates[ids[i]],
{
    let displaced = choose|displaced: Seq<StoredTemplate>| #[trigger]
        crate::service::lists_once(displaced, before.templates) && step
            == crate::template_monitor::destroy_next(before, thread, template, displaced);
    let ids = crate::service_laws::law_list_of_kept_templates(displaced, before.templates);
    assert(displaced.last() == before.templates[ids.last()]);
    ids
}

/// If a lock is poisoned when the tip changes, the new tip is noted, nothing else
/// changes, and the connection ends.
pub proof fn law_new_tip_behind_a_poisoned_lock(
    before: ServiceView,
    thread: Capability,
    tip: BlockHash,
    template: StoredTemplate,
    locks: Locks,
    after: ServiceView,
    step: MonitorStepView,
)
    requires
        before.prev_hash == Some(tip),
        tip != template.prev_hash,
        locks.template_data == Lock::Poisoned || locks.stale_template_ids == Lock::Poisoned,
        crate::template_monitor::monitor_transition(
            before,
            MonitorStateView::Fetching { thread },
            MonitorEvent::TemplateFetched(Ok(template)),
            locks,
            after,
            step,
        ),
    ensures
        after.prev_hash == Some(template.prev_hash),
        after == (ServiceView { prev_hash: after.prev_hash, ..before }),
        step == (MonitorStepView {
            state: MonitorStateView::Stopped,
            cancel_global: true,
            action: MonitorActionView::Stop,
        }),
{
}

/// While displaced templates remain, the next one is handed back, on the connection's
/// thread; when none remains the new template is announced for the block to come.
pub proof fn law_displaced_templates_go_one_by_one(
    before: ServiceView,
    thread: Capability,
    template: StoredTemplate,
    remaining: Seq<StoredTemplate>,
    locks: Locks,
    after: ServiceView,
    step: MonitorStepView,
)
    requires
        crate::template_monitor::monitor_transition(
            before,
            MonitorStateView::Destroying { thread, template, remaining },
            MonitorEvent::ClientDestroyed(Ok(())),
            locks,
            after,
            step,
        ),
    ensures
        after == before,
        !step.cancel_global,
        remaining.len() == 0 ==> step.state == (MonitorStateView::SendingFuture {
            thread,
            template,
        }) && step.action == MonitorActionView::Send(
            OutgoingView::NewTemplate { template, future_template: true },
        ),
        remaining.len() > 0 ==> step.action == (MonitorActionView::DestroyClient {
            client: remaining[remaining.len() - 1].ipc_client,
            thread: before.thread_ipc_client,
        }),
        remaining.len() > 0 ==> (step.state matches MonitorStateView::Destroying {
            thread: own,
            template: new,
            remaining: left,
        } && own == thread && new == template && left.push(remaining[remaining.len() - 1])
            == remaining),
{
    if remaining.len() > 0 {
        assert(remaining.drop_last().push(remaining[remaining.len() - 1]) =~= remaining);
    }
}

/// If the node does not take a template back, the connection ends, but the new template
/// is announced all the same and the others that remain are not handed back.
pub proof fn law_failed_hand_back(
    before: ServiceView,
    thread: Capability,
    template: StoredTemplate,
    remaining: Seq<StoredTemplate>,
    error: TemplateDataError,
    locks: Locks,
    after: ServiceView,
    step: MonitorStepView,
)
    requires
        crate::template_monitor::monitor_transition(
            before,
            MonitorStateView::Destroying { thread, template, remaining },
            MonitorEvent::ClientDestroyed(Err(error)),
            locks,
            after,
            step,
        ),
    ensures
        after == before,
        step == (MonitorStepView {
            state: MonitorStateView::SendingFuture { thread, template },
            cancel_global: true,
            action: MonitorActionView::Send(
                OutgoingView::NewTemplate { template, future_template: true },
            ),
        }),
{
}

/// A template that was announced for a block to come is followed by that block.
pub proof fn law_announced_template_is_followed_by_its_block(
    before: ServiceView,
    thread: Capability,
    template: StoredTemplate,
    locks: Locks,
    after: ServiceView,
    step: MonitorStepView,
)
    requires
        crate::template_monitor::monitor_transition(
            before,
            MonitorStateView::SendingFuture { thread, template },
            MonitorEvent::Sent(true),
            locks,
            after,
            step,
        ),
    ensures
        after == before,
        step == (MonitorStepView {
            state: MonitorStateView::SendingPrevHash { thread, template },
            cancel_global: false,
            action: MonitorActionView::Send(OutgoingView::SetNewPrevHash { template }),
        }),
{
}

/// A template that was delivered, with its block where it was announced for one, is kept
/// under its number beside the others, and the next one is waited for; where there is no
/// template to follow, the connection ends.
pub proof fn law_delivered_template_is_kept(
    before: ServiceView,
    thread: Capability,
    template: StoredTemplate,
    state: MonitorStateView,
    locks: Locks,
    after: ServiceView,
    step: MonitorStepView,
)
    requires
        state == (MonitorStateView::SendingPrevHash { thread, template }) || state == (
        MonitorStateView::SendingCurrent { thread, template }),
        locks.template_data == Lock::Healthy,
        crate::template_monitor::monitor_transition(
            before,
            state,
            MonitorEvent::Sent(true),
            locks,
            after,
            step,
        ),
    ensures
        after.templates.contains_key(template.template_id),
        after.templates[template.template_id] == template,
        forall|id: u64|
            id != template.template_id ==> (#[trigger] after.templates.contains_key(id)
                <==> before.templates.contains_key(id)),
        forall|id: u64|
            id != template.template_id && #[trigger] before.templates.contains_key(id)
                ==> after.templates[id] == before.templates[id],
        after == (ServiceView { templates: after.templates, ..before }),
        step.cancel_global <==> before.template_client is None,
        step.cancel_global ==> step.state is Stopped && step.action is Stop,
        !step.cancel_global ==> step.action is WaitNext && step.state == (
        MonitorStateView::Waiting { thread, template_client: before.template_client->0 }),
{
}

/// A message that could not be delivered, or a template that cannot be kept after it was,
/// ends the connection and changes nothing.
pub proof fn law_undelivered_template_ends_everything(
    before: ServiceView,
    thread: Capability,
    template: StoredTemplate,
    state: MonitorStateView,
    sent: bool,
    locks: Locks,
    after: ServiceView,
    step: MonitorStepView,
)
    requires
        state == (MonitorStateView::SendingFuture { thread, template }) && !sent || (state == (
        MonitorStateView::SendingPrevHash { thread, template }) || state == (
        MonitorStateView::SendingCurrent { thread, template })) && (!sent
            || locks.template_data == Lock::Poisoned),
        crate::template_monitor::monitor_transition(
            before,
            state,
            MonitorEvent::Sent(sent),
            locks,
            after,
            step,
        ),
    ensures
        after == before,
        step == (MonitorStepView {
            state: MonitorStateView::Stopped,
            cancel_global: true,
            action: MonitorActionView::Stop,
        }),
{
}

/// What is no answer to what a monitor awaits leaves it and the shared state alone; a
/// monitor that has ended awaits nothing.
pub proof fn law_monitor_passes_over_the_rest(
    before: ServiceView,
    state: MonitorStateView,
    event: MonitorEvent,
    locks: Locks,
    after: ServiceView,
    step: MonitorStepView,
)
    requires
        event is Started ==> !(state is Starting),
        event is ThreadMade ==> !(state is MakingThread),
        event is WaitNotRequested || event is WaitFailed || event is NextTemplate || event
            is GlobalCancelled || event is TemplateCancelled ==> !(state is Waiting),
        event is Interrupted ==> !(state is Interrupting),
        event is TemplateFetched ==> !(state is Fetching),
        event is ClientDestroyed ==> !(state is Destroying),
        event is Sent ==> !(state is SendingFuture || state is SendingPrevHash || state
            is SendingCurrent),
        crate::template_monitor::monitor_transition(before, state, event, locks, after, step),
    ensures
        after == before,
        step == (MonitorStepView {
            state,
            cancel_global: false,
            action: MonitorActionView::KeepWaiting,
        }),
{
}

/// A monitor's step depends on nothing in the shared state but the thread map, the
/// connection's thread, the threshold, the newest template, the tip and what is kept: not
/// on what is stale, what is counted or whose token was fired. On all these it takes the
/// same step, and leaves them as they were but for the stale ones.
pub proof fn law_monitor_ignores_counts_and_tokens(
    before: ServiceView,
    stale: Set<u64>,
    constraints_counter: u64,
    template_token_cancelled: bool,
    state: MonitorStateView,
    event: MonitorEvent,
    locks: Locks,
    after: ServiceView,
    step: MonitorStepView,
) -> (other_after: ServiceView)
    requires
        crate::template_monitor::monitor_transition(before, state, event, locks, after, step),
    ensures
        crate::template_monitor::monitor_transition(
            ServiceView { stale, constraints_counter, template_token_cancelled, ..before },
            state,
            event,
            locks,
            other_after,
            step,
        ),
        other_after.templates == after.templates,
        other_after.template_client == after.template_client,
        other_after.prev_hash == after.prev_hash,
        other_after.constraints_counter == constraints_counter,
        other_after.template_token_cancelled == template_token_cancelled,
        other_after.stale == stale || other_after.stale == after.stale,
{
    let tip_changed = match (state, event) {
        (MonitorStateView::Fetching { .. }, MonitorEvent::TemplateFetched(Ok(template))) => {
            &&& before.prev_hash is Some
            &&& before.prev_hash != Some(template.prev_hash)
            &&& locks.template_data == Lock::Healthy
            &&& locks.stale_template_ids == Lock::Healthy
        },
        _ => false,
    };
    let other_before = ServiceView {
        stale,
        constraints_counter,
        template_token_cancelled,
        ..before
    };
    let other_after = ServiceView {
        stale: if tip_changed {
            after.stale
        } else {
            stale
        },
        constraints_counter,
        template_token_cancelled,
        ..after
    };
    if tip_changed {
        let thread = state->Fetching_thread;
        let template = event->TemplateFetched_0->Ok_0;
        let displaced = choose|displaced: Seq<StoredTemplate>| #[trigger]
            crate::service::lists_once(displaced, before.templates) && step
                == crate::template_monitor::destroy_next(before, thread, template, displaced);
        assert(crate::template_monitor::destroy_next(other_before, thread, template, displaced)
            == step);
        assert(crate::service::lists_once(displaced, other_before.templates));
    }
    other_after
}

} // verus!
