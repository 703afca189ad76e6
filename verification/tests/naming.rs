use bitcoin_core_sv2::messages::{OutgoingMessage, StoredTemplate};
use bitcoin_core_sv2::objects::NodeObject;
use bitcoin_core_sv2::service::{BitcoinCoreSv2, Lock, Locks};
use bitcoin_core_sv2::template_monitor::{
    MonitorAction, MonitorEvent, MonitorState, MonitorStep,
};
use bitcoin_core_sv2::types::{BlockHash, Capability};
use std::collections::HashSet;

fn cap(id: u64) -> Capability {
    Capability { id }
}

fn template(template_id: u64, block: u8) -> StoredTemplate {
    StoredTemplate {
        template_id,
        prev_hash: BlockHash { bytes: [block; 32] },
        ipc_client: cap(1000 + template_id),
    }
}

fn healthy() -> Locks {
    Locks { template_data: Lock::Healthy, stale_template_ids: Lock::Healthy }
}

fn named(objects: Vec<NodeObject>) -> HashSet<NodeObject> {
    objects.into_iter().collect()
}

fn service() -> BitcoinCoreSv2 {
    let mut service = BitcoinCoreSv2::new(cap(1), cap(2), 100);
    service.current_prev_hash = Some(BlockHash { bytes: [9; 32] });
    service.save_template(template(3, 9));
    service.save_template(template(4, 9));
    service
}

#[test]
fn state_names_what_it_keeps() {
    let mut service = service();
    let kept = [
        NodeObject::ThreadMap(cap(1)),
        NodeObject::Thread(cap(2)),
        NodeObject::Template(cap(1003)),
        NodeObject::Template(cap(1004)),
    ];
    assert_eq!(named(service.objects()), HashSet::from(kept));
    service.current_template_ipc_client = Some(cap(20));
    let mut all = HashSet::from(kept);
    all.insert(NodeObject::Client(cap(20)));
    assert_eq!(named(service.objects()), all);
}

#[test]
fn kept_templates_are_listed_once() {
    let mut ids: Vec<u64> = service().kept_templates().iter().map(|t| t.template_id).collect();
    ids.sort();
    assert_eq!(ids, vec![3, 4]);
}

#[test]
fn tip_change_keeps_displaced_templates_in_hand() {
    let mut service = service();
    let step = service.monitor_ipc_templates(
        MonitorState::Fetching { thread: cap(30) },
        MonitorEvent::TemplateFetched(Ok(template(5, 10))),
        healthy(),
    );
    assert_eq!(
        named(step.objects()),
        HashSet::from([
            NodeObject::Thread(cap(30)),
            NodeObject::Thread(cap(2)),
            NodeObject::Template(cap(1003)),
            NodeObject::Template(cap(1004)),
            NodeObject::Template(cap(1005)),
        ])
    );
    assert!(!named(service.objects()).contains(&NodeObject::Template(cap(1003))));
}

#[test]
fn each_action_names_its_objects() {
    let step = |state: MonitorState, action: MonitorAction| {
        named(MonitorStep { state, cancel_global: false, action }.objects())
    };
    assert_eq!(
        step(MonitorState::MakingThread, MonitorAction::MakeThread { thread_map: cap(1) }),
        HashSet::from([NodeObject::ThreadMap(cap(1))])
    );
    assert_eq!(
        step(
            MonitorState::Waiting { thread: cap(30), template_client: cap(20) },
            MonitorAction::KeepWaiting
        ),
        HashSet::from([NodeObject::Thread(cap(30)), NodeObject::Client(cap(20))])
    );
    assert_eq!(
        step(
            MonitorState::Interrupting,
            MonitorAction::InterruptWait { template_client: cap(20) }
        ),
        HashSet::from([NodeObject::Client(cap(20))])
    );
    assert_eq!(
        step(
            MonitorState::Fetching { thread: cap(30) },
            MonitorAction::FetchTemplate { template_client: cap(21) }
        ),
        HashSet::from([NodeObject::Thread(cap(30)), NodeObject::Client(cap(21))])
    );
    let sent = OutgoingMessage::SetNewPrevHash { template: template(6, 9) };
    assert_eq!(
        step(MonitorState::Stopped, MonitorAction::Send(sent)),
        HashSet::from([NodeObject::Template(cap(1006))])
    );
    assert!(step(MonitorState::Stopped, MonitorAction::Stop).is_empty());
}
