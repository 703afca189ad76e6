//! Which of the node's objects the service still has to do with.
//!
//! The library knows the node's objects by numbers. Whoever holds the objects themselves
//! may let go of those that neither the shared state nor a step of a task names any more:
//! what a task names next is among them, or is handed to it with the next event.
use crate::incoming_monitor::{IncomingActionView, IncomingEvent, IncomingState};
use crate::messages::{OutgoingMessage, OutgoingView, StoredTemplate};
use crate::service::{BitcoinCoreSv2, Locks, ServiceView};
use crate::template_monitor::{
    MonitorAction, MonitorActionView, MonitorEvent, MonitorState, MonitorStateView, MonitorStep,
    MonitorStepView,
};
use crate::types::Capability;
use vstd::prelude::*;

verus! {

broadcast use {vstd::std_specs::hash::group_hash_axioms, vstd::seq_lib::group_seq_properties};

/// An object of the node, by its kind and number.
#[derive(Clone, Copy, Debug, PartialEq, Eq, Hash, Structural)]
pub enum NodeObject {
    ThreadMap(Capability),
    Thread(Capability),
    /// A template to wait on, or whose data can be fetched.
    Client(Capability),
    /// A template whose data is there.
    Template(Capability),
}

/// The shared state names `object`.
pub open spec fn service_names(service: ServiceView, object: NodeObject) -> bool {
    match object {
        NodeObject::ThreadMap(number) => service.thread_map == number,
        NodeObject::Thread(number) => service.thread_ipc_client == number,
        NodeObject::Client(number) => service.template_client == Some(number),
        NodeObject::Template(number) => exists|id: u64| #[trigger]
            service.templates.contains_key(id) && service.templates[id].ipc_client == number,
    }
}

/// A template monitor at `state` names `object`.
pub open spec fn state_names(state: MonitorStateView, object: NodeObject) -> bool {
    match state {
        MonitorStateView::Waiting { thread, template_client } => object == NodeObject::Thread(
            thread,
        ) || object == NodeObject::Client(template_client),
        MonitorStateView::Fetching { thread } => object == NodeObject::Thread(thread),
        MonitorStateView::Destroying { thread, template, remaining } => object
            == NodeObject::Thread(thread) || object == NodeObject::Template(template.ipc_client)
            || exists|i: int|
            0 <= i < remaining.len() && object == NodeObject::Template(
                (#[trigger] remaining[i]).ipc_client,
            ),
        MonitorStateView::SendingFuture { thread, template } => object == NodeObject::Thread(
            thread,
        ) || object == NodeObject::Template(template.ipc_client),
        MonitorStateView::SendingPrevHash { thread, template } => object == NodeObject::Thread(
            thread,
        ) || object == NodeObject::Template(template.ipc_client),
        MonitorStateView::SendingCurrent { thread, template } => object == NodeObject::Thread(
            thread,
        ) || object == NodeObject::Template(template.ipc_client),
        _ => false,
    }
}

/// The message is made out of `object`.
pub open spec fn message_names(message: OutgoingView, object: NodeObject) -> bool {
    match message {
        OutgoingView::NewTemplate { template, .. } => object == NodeObject::Template(
            template.ipc_client,
        ),
        OutgoingView::SetNewPrevHash { template } => object == NodeObject::Template(
            template.ipc_client,
        ),
        OutgoingView::RequestTransactionDataSuccess { template } => object
            == NodeObject::Template(template.ipc_client),
        OutgoingView::RequestTransactionDataError { .. } => false,
    }
}

/// What a template monitor is to do takes `object`.
pub open spec fn action_names(action: MonitorActionView, object: NodeObject) -> bool {
    match action {
        MonitorActionView::MakeThread { thread_map } => object == NodeObject::ThreadMap(thread_map),
        MonitorActionView::WaitNext { template_client, thread, .. } => object
            == NodeObject::Client(template_client) || object == NodeObject::Thread(thread),
        MonitorActionView::InterruptWait { template_client } => object == NodeObject::Client(
            template_client,
        ),
        MonitorActionView::FetchTemplate { template_client } => object == NodeObject::Client(
            template_client,
        ),
        MonitorActionView::DestroyClient { client, thread } => object == NodeObject::Template(
            client,
        ) || object == NodeObject::Thread(thread),
        MonitorActionView::Send(message) => message_names(message, object),
        _ => false,
    }
}

/// A step of a template monitor names `object`.
pub open spec fn step_names(step: MonitorStepView, object: NodeObject) -> bool {
    state_names(step.state, object) || action_names(step.action, object)
}

/// The event hands `object` to a template monitor.
pub open spec fn event_names(event: MonitorEvent, object: NodeObject) -> bool {
    match event {
        MonitorEvent::ThreadMade(Ok(thread)) => object == NodeObject::Thread(thread),
        MonitorEvent::NextTemplate(Ok(client)) => object == NodeObject::Client(client),
        MonitorEvent::TemplateFetched(Ok(template)) => object == NodeObject::Template(
            template.ipc_client,
        ),
        _ => false,
    }
}

/// What the task that takes messages is to do takes `object`.
pub open spec fn incoming_action_names(action: IncomingActionView, object: NodeObject) -> bool {
    match action {
        IncomingActionView::Send(message) => message_names(message, object),
        IncomingActionView::Submit { template, thread, .. } => object == NodeObject::Template(
            template.ipc_client,
        ) || object == NodeObject::Thread(thread),
        _ => false,
    }
}

/// The event hands `object` to the task that takes messages.
pub open spec fn incoming_event_names(event: IncomingEvent, object: NodeObject) -> bool {
    match event {
        IncomingEvent::TemplateClientCreated(Ok(client)) => object == NodeObject::Client(client),
        _ => false,
    }
}

/// Templates that are listed are among those that are kept.
proof fn lemma_listed_is_kept(service: ServiceView, list: Seq<StoredTemplate>, i: int)
    requires
        crate::service::lists_once(list, service.templates),
        0 <= i < list.len(),
    ensures
        service_names(service, NodeObject::Template(list[i].ipc_client)),
{
    let ids = choose|ids: Seq<u64>| #[trigger]
        crate::service::lists_by_id(ids, list, service.templates);
    assert(ids.to_set().contains(ids[i]));
    assert(service.templates.contains_key(ids[i]));
}

/// The step that has the node let go of one of `displaced` names these, the new template
/// and the threads.
proof fn lemma_destroy_names(
    service: ServiceView,
    thread: Capability,
    template: StoredTemplate,
    displaced: Seq<StoredTemplate>,
    object: NodeObject,
)
    requires
        step_names(
            crate::template_monitor::destroy_next(service, thread, template, displaced),
            object,
        ),
    ensures
        object == NodeObject::Thread(thread) || object == NodeObject::Thread(
            service.thread_ipc_client,
        ) || object == NodeObject::Template(template.ipc_client) || exists|i: int|
            0 <= i < displaced.len() && object == NodeObject::Template(
                (#[trigger] displaced[i]).ipc_client,
            ),
{
    if displaced.len() > 0 {
        let step = crate::template_monitor::destroy_next(service, thread, template, displaced);
        if !action_names(step.action, object) && object != NodeObject::Thread(thread) && object
            != NodeObject::Template(template.ipc_client) {
            let remaining = displaced.drop_last();
            let i = choose|i: int|
                0 <= i < remaining.len() && object == NodeObject::Template(
                    (#[trigger] remaining[i]).ipc_client,
                );
            assert(displaced[i] == remaining[i]);
        }
    }
}

/// A step of a template monitor, and the shared state after it, name no object but those
/// that were named before or that the event hands over.
pub proof fn law_monitor_names_what_it_was_given(
    before: ServiceView,
    state: MonitorStateView,
    event: MonitorEvent,
    locks: Locks,
    after: ServiceView,
    step: MonitorStepView,
    object: NodeObject,
)
    requires
        crate::template_monitor::monitor_transition(before, state, event, locks, after, step),
        step_names(step, object) || service_names(after, object),
    ensures
        service_names(before, object) || state_names(state, object) || event_names(event, object),
{
    match (state, event) {
        (
            MonitorStateView::Fetching { thread },
            MonitorEvent::TemplateFetched(Ok(template)),
        ) => {
            if step.state is Destroying {
                let displaced = choose|displaced: Seq<StoredTemplate>| #[trigger]
                    crate::service::lists_once(displaced, before.templates) && step
                        == crate::template_monitor::destroy_next(
                        before,
                        thread,
                        template,
                        displaced,
                    );
                if step_names(step, object) {
                    lemma_destroy_names(before, thread, template, displaced, object);
                    assert forall|i: int| 0 <= i < displaced.len() implies service_names(
                        before,
                        NodeObject::Template((#[trigger] displaced[i]).ipc_client),
                    ) by {
                        lemma_listed_is_kept(before, displaced, i);
                    }
                }
            }
        },
        (
            MonitorStateView::Destroying { thread, template, remaining },
            MonitorEvent::ClientDestroyed(Ok(_)),
        ) => {
            if step_names(step, object) {
                lemma_destroy_names(before, thread, template, remaining, object);
            }
        },
        _ => {},
    }
}

/// The same of the task that takes messages.
pub proof fn law_incoming_task_names_what_it_was_given(
    before: ServiceView,
    state: IncomingState,
    event: IncomingEvent,
    locks: Locks,
    object: NodeObject,
)
    requires
        incoming_action_names(
            crate::incoming_monitor::incoming_step(before, state, event, locks).action,
            object,
        ) || service_names(
            crate::incoming_monitor::incoming_effect(before, state, event),
            object,
        ),
    ensures
        service_names(before, object) || incoming_event_names(event, object),
{
}

impl OutgoingMessage {
    /// Adds the object that the message is made out of.
    fn add_objects(&self, list: &mut Vec<NodeObject>)
        ensures
            forall|object: NodeObject| #[trigger]
                final(list)@.contains(object) <==> old(list)@.contains(object) || message_names(
                    self@,
                    object,
                ),
    {
        match self {
            OutgoingMessage::NewTemplate { template, .. } => list.push(
                NodeObject::Template(template.ipc_client),
            ),
            OutgoingMessage::SetNewPrevHash { template } => list.push(
                NodeObject::Template(template.ipc_client),
            ),
            OutgoingMessage::RequestTransactionDataSuccess { template } => list.push(
                NodeObject::Template(template.ipc_client),
            ),
            OutgoingMessage::RequestTransactionDataError(_) => {},
        }
    }
}

/// Adds templates whose data is there.
fn add_templates(list: &mut Vec<NodeObject>, templates: &Vec<StoredTemplate>)
    ensures
        forall|object: NodeObject| #[trigger]
            final(list)@.contains(object) <==> old(list)@.contains(object) || exists|i: int|
                0 <= i < templates@.len() && object == NodeObject::Template(
                    (#[trigger] templates@[i]).ipc_client,
                ),
{
    let ghost first = list@;
    let mut i: usize = 0;
    while i < templates.len()
        invariant
            i <= templates@.len(),
            list@ == first + templates@.take(i as int).map_values(
                |template: StoredTemplate| NodeObject::Template(template.ipc_client),
            ),
        decreases templates@.len() - i,
    {
        list.push(NodeObject::Template(templates[i].ipc_client));
        i = i + 1;
        assert(list@ =~= first + templates@.take(i as int).map_values(
            |template: StoredTemplate| NodeObject::Template(template.ipc_client),
        ));
    }
    let ghost added = templates@.map_values(
        |template: StoredTemplate| NodeObject::Template(template.ipc_client),
    );
    assert(list@ =~= first + added);
    assert forall|object: NodeObject| #[trigger] list@.contains(object) implies first.contains(
        object,
    ) || exists|i: int|
        0 <= i < templates@.len() && object == NodeObject::Template(
            (#[trigger] templates@[i]).ipc_client,
        ) by {
        if !first.contains(object) {
            let at = choose|at: int| 0 <= at < list@.len() && list@[at] == object;
            assert(at >= first.len());
            assert(object == NodeObject::Template(templates@[at - first.len()].ipc_client));
        }
    }
    assert forall|i: int| 0 <= i < templates@.len() implies list@.contains(
        NodeObject::Template((#[trigger] templates@[i]).ipc_client),
    ) by {
        assert(list@[first.len() + i] == NodeObject::Template(templates@[i].ipc_client));
    }
}

impl MonitorState {
    /// The objects that the state names.
    fn objects(&self) -> (list: Vec<NodeObject>)
        ensures
            forall|object: NodeObject| #[trigger]
                list@.contains(object) <==> state_names(self@, object),
    {
        let mut list: Vec<NodeObject> = Vec::new();
        match self {
            MonitorState::Waiting { thread, template_client } => {
                list.push(NodeObject::Thread(*thread));
                list.push(NodeObject::Client(*template_client));
            },
            MonitorState::Fetching { thread } => {
                list.push(NodeObject::Thread(*thread));
            },
            MonitorState::Destroying { thread, template, remaining } => {
                list.push(NodeObject::Thread(*thread));
                list.push(NodeObject::Template(template.ipc_client));
                let ghost first = list@;
                assert(first =~= seq![
                    NodeObject::Thread(*thread),
                    NodeObject::Template(template.ipc_client),
                ]);
                add_templates(&mut list, remaining);
                assert forall|object: NodeObject| #[trigger]
                    list@.contains(object) <==> state_names(self@, object) by {
                    if list@.contains(object) && !first.contains(object) {
                        let i = choose|i: int|
                            0 <= i < remaining@.len() && object == NodeObject::Template(
                                (#[trigger] remaining@[i]).ipc_client,
                            );
                        assert(self@->Destroying_remaining[i] == remaining@[i]);
                    }
                    if object == first[0] || object == first[1] {
                        assert(first.contains(object));
                    }
                }
            },
            MonitorState::SendingFuture { thread, template } => {
                list.push(NodeObject::Thread(*thread));
                list.push(NodeObject::Template(template.ipc_client));
            },
            MonitorState::SendingPrevHash { thread, template } => {
                list.push(NodeObject::Thread(*thread));
                list.push(NodeObject::Template(template.ipc_client));
            },
            MonitorState::SendingCurrent { thread, template } => {
                list.push(NodeObject::Thread(*thread));
                list.push(NodeObject::Template(template.ipc_client));
            },
            _ => {},
        }
        list
    }
}

/// The templates that are kept are those in a list of them.
proof fn lemma_listed_names(service: ServiceView, list: Seq<StoredTemplate>, number: Capability)
    requires
        crate::service::lists_once(list, service.templates),
    ensures
        service_names(service, NodeObject::Template(number)) <==> exists|i: int|
            0 <= i < list.len() && number == (#[trigger] list[i]).ipc_client,
{
    if service_names(service, NodeObject::Template(number)) {
        let ids = choose|ids: Seq<u64>| #[trigger]
            crate::service::lists_by_id(ids, list, service.templates);
        let id = choose|id: u64| #[trigger]
            service.templates.contains_key(id) && service.templates[id].ipc_client == number;
        assert(ids.to_set().contains(id));
        let i = choose|i: int| 0 <= i < ids.len() && ids[i] == id;
        assert(list[i].ipc_client == number);
    }
    assert forall|i: int| 0 <= i < list.len() && number == (#[trigger] list[i]).ipc_client implies
        service_names(service, NodeObject::Template(number)) by {
        lemma_listed_is_kept(service, list, i);
    }
}

impl MonitorStep {
    /// The objects that the step names: those that its action takes, and those that the
    /// monitor goes on with.
    pub fn objects(&self) -> (list: Vec<NodeObject>)
        ensures
            forall|object: NodeObject| #[trigger]
                list@.contains(object) <==> step_names(self@, object),
    {
        let mut list = self.state.objects();
        match &self.action {
            MonitorAction::MakeThread { thread_map } => {
                list.push(NodeObject::ThreadMap(*thread_map));
            },
            MonitorAction::WaitNext { template_client, thread, .. } => {
                list.push(NodeObject::Client(*template_client));
                list.push(NodeObject::Thread(*thread));
            },
            MonitorAction::InterruptWait { template_client } => {
                list.push(NodeObject::Client(*template_client));
            },
            MonitorAction::FetchTemplate { template_client } => {
                list.push(NodeObject::Client(*template_client));
            },
            MonitorAction::DestroyClient { client, thread } => {
                list.push(NodeObject::Template(*client));
                list.push(NodeObject::Thread(*thread));
            },
            MonitorAction::Send(message) => {
                message.add_objects(&mut list);
            },
            _ => {},
        }
        list
    }
}

impl BitcoinCoreSv2 {
    /// The objects that the shared state names.
    pub fn objects(&self) -> (list: Vec<NodeObject>)
        ensures
            forall|object: NodeObject| #[trigger]
                list@.contains(object) <==> service_names(self@, object),
    {
        let mut list: Vec<NodeObject> = Vec::new();
        list.push(NodeObject::ThreadMap(self.thread_map));
        list.push(NodeObject::Thread(self.thread_ipc_client));
        match self.current_template_ipc_client {
            Some(client) => {
                list.push(NodeObject::Client(client));
            },
            None => {},
        }
        let kept = self.kept_templates();
        add_templates(&mut list, &kept);
        proof {
            assert forall|number: Capability| #[trigger]
                service_names(self@, NodeObject::Template(number)) <==> exists|i: int|
                    0 <= i < kept@.len() && number == (#[trigger] kept@[i]).ipc_client by {
                lemma_listed_names(self@, kept@, number);
            }
        }
        list
    }
}

} // verus!
