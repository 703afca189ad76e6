use bitcoin_core_sv2::error::{BitcoinCoreSv2Error, TemplateDataError};
use bitcoin_core_sv2::messages::{OutgoingMessage, StoredTemplate};
use bitcoin_core_sv2::service::{BitcoinCoreSv2, Lock, Locks};
use bitcoin_core_sv2::template_monitor::{
    MonitorAction, MonitorEvent, MonitorState, MonitorStep,
};
use bitcoin_core_sv2::types::{BlockHash, Capability};

fn cap(id: u64) -> Capability {
    Capability { id }
}

fn template(template_id: u64, block: u8) -> StoredTemplate {
    StoredTemplate {
        template_id,
        prev_hash: BlockHash { bytes: [block; 32] },
        ipc_client: cap(1000 + template_id),
    }
}

/// A service at block 9 with the templates 3 and 4.
fn service() -> BitcoinCoreSv2 {
    let mut service = BitcoinCoreSv2::new(cap(1), cap(2), 100);
    service.current_template_ipc_client = Some(cap(20));
    service.current_prev_hash = Some(BlockHash { bytes: [9; 32] });
    service.save_template(template(3, 9));
    service.save_template(template(4, 9));
    service
}

fn locks(data: Lock, stale: Lock) -> Locks {
    Locks { template_data: data, stale_template_ids: stale }
}

fn healthy() -> Locks {
    locks(Lock::Healthy, Lock::Healthy)
}

fn step(service: &mut BitcoinCoreSv2, state: MonitorState, event: MonitorEvent) -> MonitorStep {
    service.monitor_ipc_templates(state, event, healthy())
}

fn waiting() -> MonitorState {
    MonitorState::Waiting { thread: cap(30), template_client: cap(20) }
}

fn fetching() -> MonitorState {
    MonitorState::Fetching { thread: cap(30) }
}

fn failed() -> capnp::Error {
    capnp::Error::failed("gone".to_string())
}

fn is_stop(step: &MonitorStep, cancel_global: bool) -> bool {
    matches!(step.state, MonitorState::Stopped)
        && matches!(step.action, MonitorAction::Stop)
        && step.cancel_global == cancel_global
}

fn waits_on(step: &MonitorStep, client: u64, fee: i64) -> bool {
    let action = matches!(
        step.action,
        MonitorAction::WaitNext { template_client, thread, fee_threshold, timeout_ms }
            if template_client == cap(client)
                && thread == cap(30)
                && fee_threshold == fee
                && timeout_ms == 10_000
    );
    let state = matches!(
        step.state,
        MonitorState::Waiting { thread, template_client }
            if thread == cap(30) && template_client == cap(client)
    );
    action && state && !step.cancel_global
}

fn ids(service: &BitcoinCoreSv2) -> Vec<u64> {
    let mut ids: Vec<u64> = service.template_data.keys().copied().collect();
    ids.sort();
    ids
}

fn stale(service: &BitcoinCoreSv2) -> Vec<u64> {
    let mut ids: Vec<u64> = service.stale_template_ids.iter().copied().collect();
    ids.sort();
    ids
}

#[test]
fn task_makes_a_thread_and_waits() {
    let mut service = service();
    let first = step(&mut service, MonitorState::Starting, MonitorEvent::Started);
    assert!(matches!(first.action, MonitorAction::MakeThread { thread_map } if thread_map == cap(1)));
    let next = step(&mut service, first.state, MonitorEvent::ThreadMade(Ok(cap(30))));
    assert!(waits_on(&next, 20, 100));
}

#[test]
fn large_threshold_is_read_as_signed() {
    let mut service = service();
    service.fee_threshold = u64::MAX;
    let next = step(&mut service, MonitorState::MakingThread, MonitorEvent::ThreadMade(Ok(cap(30))));
    assert!(waits_on(&next, 20, -1));
    service.fee_threshold = i64::MAX as u64;
    let next = step(&mut service, MonitorState::MakingThread, MonitorEvent::ThreadMade(Ok(cap(30))));
    assert!(waits_on(&next, 20, i64::MAX));
}

#[test]
fn task_without_a_thread_ends_the_connection() {
    let next =
        step(&mut service(), MonitorState::MakingThread, MonitorEvent::ThreadMade(Err(failed())));
    assert!(is_stop(&next, true));
}

#[test]
fn task_without_a_client_ends_the_connection() {
    let mut service = BitcoinCoreSv2::new(cap(1), cap(2), 100);
    let next = step(&mut service, MonitorState::MakingThread, MonitorEvent::ThreadMade(Ok(cap(30))));
    assert!(is_stop(&next, true));
}

#[test]
fn failed_wait_ends_the_connection() {
    let next = step(&mut service(), waiting(), MonitorEvent::WaitNotRequested(failed()));
    assert!(is_stop(&next, true));
    let next = step(&mut service(), waiting(), MonitorEvent::WaitFailed(failed()));
    assert!(is_stop(&next, true));
    let next = step(&mut service(), waiting(), MonitorEvent::NextTemplate(Err(failed())));
    assert!(is_stop(&next, true));
}

#[test]
fn timed_out_wait_begins_anew() {
    let error =
        capnp::Error::from_kind(capnp::ErrorKind::MessageContainsNullCapabilityPointer);
    let next = step(&mut service(), waiting(), MonitorEvent::NextTemplate(Err(error)));
    assert!(waits_on(&next, 20, 100));
}

#[test]
fn answers_without_a_template() {
    let service = service();
    assert!(waits_on(&service.no_next_template(cap(30), true), 20, 100));
    assert!(is_stop(&service.no_next_template(cap(30), false), true));
}

#[test]
fn cancelled_wait_is_called_off() {
    for event in vec![MonitorEvent::GlobalCancelled, MonitorEvent::TemplateCancelled] {
        let mut service = service();
        let next = step(&mut service, waiting(), event);
        assert!(!next.cancel_global);
        assert!(matches!(
            next.action,
            MonitorAction::InterruptWait { template_client } if template_client == cap(20)
        ));
        let last = step(&mut service, next.state, MonitorEvent::Interrupted);
        assert!(is_stop(&last, false));
    }
}

#[test]
fn next_template_is_fetched() {
    let mut service = service();
    let next = step(&mut service, waiting(), MonitorEvent::NextTemplate(Ok(cap(21))));
    assert_eq!(service.current_template_ipc_client, Some(cap(21)));
    assert!(matches!(
        next.action,
        MonitorAction::FetchTemplate { template_client } if template_client == cap(21)
    ));
    let last = step(
        &mut service,
        next.state,
        MonitorEvent::TemplateFetched(Err(BitcoinCoreSv2Error::InvalidTemplateHeaderLength)),
    );
    assert!(is_stop(&last, true));
}

#[test]
fn template_without_a_known_tip_ends_the_connection() {
    let mut service = service();
    service.current_prev_hash = None;
    let next = step(&mut service, fetching(), MonitorEvent::TemplateFetched(Ok(template(5, 9))));
    assert!(is_stop(&next, true));
    assert_eq!(ids(&service), vec![3, 4]);
}

#[test]
fn template_on_the_same_tip_is_sent_then_kept() {
    let mut service = service();
    let next = step(&mut service, fetching(), MonitorEvent::TemplateFetched(Ok(template(5, 9))));
    assert!(matches!(
        next.action,
        MonitorAction::Send(OutgoingMessage::NewTemplate { template, future_template: false })
            if template.template_id == 5
    ));
    assert_eq!(ids(&service), vec![3, 4]);
    let last = step(&mut service, next.state, MonitorEvent::Sent(true));
    assert!(waits_on(&last, 20, 100));
    assert_eq!(ids(&service), vec![3, 4, 5]);
    assert!(stale(&service).is_empty());
}

#[test]
fn template_on_a_new_tip_displaces_the_others() {
    let mut service = service();
    let mut next =
        step(&mut service, fetching(), MonitorEvent::TemplateFetched(Ok(template(5, 10))));
    assert_eq!(service.current_prev_hash.unwrap().bytes, [10u8; 32]);
    assert_eq!(ids(&service), vec![5]);
    assert_eq!(stale(&service), vec![3, 4]);

    let mut destroyed: Vec<u64> = Vec::new();
    while let MonitorAction::DestroyClient { client, thread } = next.action {
        assert_eq!(thread, cap(2));
        destroyed.push(client.id);
        next = step(&mut service, next.state, MonitorEvent::ClientDestroyed(Ok(())));
    }
    destroyed.sort();
    assert_eq!(destroyed, vec![1003, 1004]);
    assert!(!next.cancel_global);
    assert!(matches!(
        next.action,
        MonitorAction::Send(OutgoingMessage::NewTemplate { template, future_template: true })
            if template.template_id == 5
    ));
    let next = step(&mut service, next.state, MonitorEvent::Sent(true));
    assert!(matches!(
        next.action,
        MonitorAction::Send(OutgoingMessage::SetNewPrevHash { template })
            if template.template_id == 5
    ));
    let last = step(&mut service, next.state, MonitorEvent::Sent(true));
    assert!(waits_on(&last, 20, 100));
    assert_eq!(ids(&service), vec![5]);
    assert_eq!(stale(&service), vec![3, 4]);
}

#[test]
fn new_tip_without_kept_templates_is_announced_at_once() {
    let mut service = BitcoinCoreSv2::new(cap(1), cap(2), 100);
    service.current_prev_hash = Some(BlockHash { bytes: [9; 32] });
    let next = step(&mut service, fetching(), MonitorEvent::TemplateFetched(Ok(template(5, 10))));
    assert!(matches!(next.state, MonitorState::SendingFuture { .. }));
    assert!(stale(&service).is_empty());
}

#[test]
fn failed_destroy_ends_the_connection_but_announces() {
    let mut service = service();
    let next = step(&mut service, fetching(), MonitorEvent::TemplateFetched(Ok(template(5, 10))));
    assert!(matches!(next.action, MonitorAction::DestroyClient { .. }));
    let next = step(
        &mut service,
        next.state,
        MonitorEvent::ClientDestroyed(Err(TemplateDataError::CapnpError(failed()))),
    );
    assert!(next.cancel_global);
    assert!(matches!(
        next.action,
        MonitorAction::Send(OutgoingMessage::NewTemplate { future_template: true, .. })
    ));
}

#[test]
fn undelivered_messages_end_the_connection() {
    let at = || (cap(30), template(5, 10));
    let (thread, template) = at();
    let next = step(
        &mut service(),
        MonitorState::SendingFuture { thread, template },
        MonitorEvent::Sent(false),
    );
    assert!(is_stop(&next, true));
    let (thread, template) = at();
    let next = step(
        &mut service(),
        MonitorState::SendingPrevHash { thread, template },
        MonitorEvent::Sent(false),
    );
    assert!(is_stop(&next, true));
    let (thread, template) = at();
    let mut service = service();
    let next = step(
        &mut service,
        MonitorState::SendingCurrent { thread, template },
        MonitorEvent::Sent(false),
    );
    assert!(is_stop(&next, true));
    assert_eq!(ids(&service), vec![3, 4]);
}

#[test]
fn poisoned_locks_end_the_connection() {
    for locks in vec![
        locks(Lock::Poisoned, Lock::Healthy),
        locks(Lock::Healthy, Lock::Poisoned),
    ] {
        let mut service = service();
        let next = service.monitor_ipc_templates(
            fetching(),
            MonitorEvent::TemplateFetched(Ok(template(5, 10))),
            locks,
        );
        assert!(is_stop(&next, true));
        assert_eq!(service.current_prev_hash.unwrap().bytes, [10u8; 32]);
        assert_eq!(ids(&service), vec![3, 4]);
        assert!(stale(&service).is_empty());
    }
    let mut service = service();
    let next = service.monitor_ipc_templates(
        MonitorState::SendingCurrent { thread: cap(30), template: template(5, 9) },
        MonitorEvent::Sent(true),
        locks(Lock::Poisoned, Lock::Healthy),
    );
    assert!(is_stop(&next, true));
    assert_eq!(ids(&service), vec![3, 4]);
}

#[test]
fn stopped_task_stays_stopped() {
    let mut service = service();
    let next = step(&mut service, MonitorState::Stopped, MonitorEvent::NextTemplate(Ok(cap(21))));
    assert!(matches!(next.state, MonitorState::Stopped));
    assert!(matches!(next.action, MonitorAction::KeepWaiting));
    assert_eq!(service.current_template_ipc_client, Some(cap(20)));
}

#[test]
fn kept_templates_build_on_the_tip() {
    let on_tip = |service: &BitcoinCoreSv2| {
        let tip = service.current_prev_hash.unwrap();
        service.template_data.values().all(|t| t.prev_hash == tip)
    };
    let mut service = service();
    assert!(on_tip(&service));
    let next = step(&mut service, fetching(), MonitorEvent::TemplateFetched(Ok(template(5, 9))));
    let next = step(&mut service, next.state, MonitorEvent::Sent(true));
    assert!(waits_on(&next, 20, 100));
    assert!(on_tip(&service));
    assert_eq!(ids(&service), vec![3, 4, 5]);
    let mut next =
        step(&mut service, fetching(), MonitorEvent::TemplateFetched(Ok(template(6, 10))));
    assert!(on_tip(&service));
    for _ in 0..3 {
        next = step(&mut service, next.state, MonitorEvent::ClientDestroyed(Ok(())));
        assert!(on_tip(&service));
    }
    for _ in 0..2 {
        next = step(&mut service, next.state, MonitorEvent::Sent(true));
        assert!(on_tip(&service));
    }
    assert!(waits_on(&next, 20, 100));
    assert_eq!(ids(&service), vec![6]);
    assert_eq!(service.current_prev_hash, Some(BlockHash { bytes: [10; 32] }));
}

#[test]
fn poisoned_lock_leaves_templates_behind_the_tip() {
    let mut service = service();
    let next = service.monitor_ipc_templates(
        fetching(),
        MonitorEvent::TemplateFetched(Ok(template(6, 10))),
        locks(Lock::Healthy, Lock::Poisoned),
    );
    assert!(is_stop(&next, true));
    assert_eq!(service.current_prev_hash, Some(BlockHash { bytes: [10; 32] }));
    assert_eq!(ids(&service), vec![3, 4]);
}
