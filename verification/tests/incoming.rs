use bitcoin_core_sv2::error::{BitcoinCoreSv2Error, TemplateDataError};
use bitcoin_core_sv2::incoming_monitor::{
    IncomingAction, IncomingEvent, IncomingState, IncomingStep,
};
use bitcoin_core_sv2::messages::{
    CoinbaseOutputConstraints, IncomingMessage, OutgoingMessage, RequestTransactionData,
    StoredTemplate, SubmitSolution,
};
use bitcoin_core_sv2::service::{BitcoinCoreSv2, Lock, Locks};
use bitcoin_core_sv2::types::{BlockHash, Capability};

fn cap(id: u64) -> Capability {
    Capability { id }
}

fn service() -> BitcoinCoreSv2 {
    let mut service = BitcoinCoreSv2::new(cap(1), cap(2), 100);
    service.save_template(StoredTemplate {
        template_id: 3,
        prev_hash: BlockHash { bytes: [9; 32] },
        ipc_client: cap(33),
    });
    service
}

fn healthy() -> Locks {
    Locks { template_data: Lock::Healthy, stale_template_ids: Lock::Healthy }
}

fn receive(service: &mut BitcoinCoreSv2, message: IncomingMessage) -> IncomingStep {
    service.monitor_incoming_messages(
        IncomingState::Receiving,
        IncomingEvent::Received(message),
        healthy(),
    )
}

fn is_stop(step: &IncomingStep, cancel_global: bool) -> bool {
    step.state == IncomingState::Stopped
        && step.cancel_global == cancel_global
        && !step.spawn_template_monitor
        && matches!(step.action, IncomingAction::Stop)
}

fn is_receive(step: &IncomingStep, spawn: bool) -> bool {
    step.state == IncomingState::Receiving
        && !step.cancel_global
        && step.spawn_template_monitor == spawn
        && matches!(step.action, IncomingAction::Receive)
}

fn solution(template_id: u64) -> IncomingMessage {
    IncomingMessage::SubmitSolution(SubmitSolution {
        template_id,
        version: 1,
        header_timestamp: 2,
        header_nonce: 3,
        coinbase_tx: vec![4],
    })
}

#[test]
fn cancellation_stops_the_task() {
    let mut service = service();
    let step = service.monitor_incoming_messages(
        IncomingState::Receiving,
        IncomingEvent::GlobalCancelled,
        healthy(),
    );
    assert!(is_stop(&step, false));
}

#[test]
fn closed_channel_leaves_only_cancellation() {
    let mut service = service();
    let step = service.monitor_incoming_messages(
        IncomingState::Receiving,
        IncomingEvent::ChannelClosed,
        healthy(),
    );
    assert_eq!(step.state, IncomingState::Closed);
    assert!(matches!(step.action, IncomingAction::AwaitCancellation));
    assert!(!step.cancel_global);
    let step = service.monitor_incoming_messages(
        step.state,
        IncomingEvent::GlobalCancelled,
        healthy(),
    );
    assert!(is_stop(&step, false));
}

#[test]
fn constraints_lead_to_a_new_monitor() {
    let mut service = service();
    let constraints = CoinbaseOutputConstraints {
        coinbase_output_max_additional_size: 2,
        coinbase_output_max_additional_sigops: 7,
    };
    let step =
        receive(&mut service, IncomingMessage::CoinbaseOutputConstraints(constraints));
    assert!(service.template_token_cancelled);
    assert!(!step.spawn_template_monitor);
    match step.action {
        IncomingAction::CreateTemplateClient(request) => {
            assert_eq!(request.coinbase_output_max_additional_size, 2);
            assert_eq!(request.coinbase_output_max_additional_sigops, 7);
        }
        other => panic!("no client asked for: {:?}", other),
    }
    let step = service.monitor_incoming_messages(
        step.state,
        IncomingEvent::TemplateClientCreated(Ok(cap(40))),
        healthy(),
    );
    assert!(is_receive(&step, true));
    assert!(!service.template_token_cancelled);
    assert_eq!(service.current_template_ipc_client, Some(cap(40)));
}

#[test]
fn missing_client_ends_the_connection() {
    let mut service = service();
    let step = service.monitor_incoming_messages(
        IncomingState::CreatingTemplateClient,
        IncomingEvent::TemplateClientCreated(Err(BitcoinCoreSv2Error::TemplateIpcClientNotFound)),
        healthy(),
    );
    assert!(is_stop(&step, true));
    assert_eq!(service.current_template_ipc_client, None);
}

#[test]
fn requests_are_answered() {
    let mut service = service();
    let ask = |template_id: u64| {
        IncomingMessage::RequestTransactionData(RequestTransactionData { template_id })
    };
    let step = receive(&mut service, ask(3));
    assert_eq!(step.state, IncomingState::Answering);
    assert!(matches!(
        step.action,
        IncomingAction::Send(OutgoingMessage::RequestTransactionDataSuccess { template })
            if template.template_id == 3
    ));
    let step = receive(&mut service, ask(4));
    assert!(matches!(
        step.action,
        IncomingAction::Send(OutgoingMessage::RequestTransactionDataError(error))
            if error.template_id == 4 && error.error_code == b"template-id-not-found".to_vec()
    ));
    let step = service.monitor_incoming_messages(
        step.state,
        IncomingEvent::AnswerSent(true),
        healthy(),
    );
    assert!(is_receive(&step, false));
    let step = service.monitor_incoming_messages(
        IncomingState::Answering,
        IncomingEvent::AnswerSent(false),
        healthy(),
    );
    assert!(is_stop(&step, true));
}

#[test]
fn unanswerable_request_ends_the_connection() {
    let mut service = service();
    let step = service.monitor_incoming_messages(
        IncomingState::Receiving,
        IncomingEvent::Received(IncomingMessage::RequestTransactionData(
            RequestTransactionData { template_id: 3 },
        )),
        Locks { template_data: Lock::Poisoned, stale_template_ids: Lock::Healthy },
    );
    assert!(is_stop(&step, true));
}

#[test]
fn solutions_are_submitted() {
    let mut service = service();
    let step = receive(&mut service, solution(3));
    assert_eq!(step.state, IncomingState::Submitting);
    match step.action {
        IncomingAction::Submit(call) => {
            assert_eq!(call.template.ipc_client, cap(33));
            assert_eq!(call.thread, cap(2));
            assert_eq!(call.solution.header_nonce, 3);
        }
        other => panic!("nothing submitted: {:?}", other),
    }
    let step = service.monitor_incoming_messages(
        step.state,
        IncomingEvent::SolutionSubmitted(Ok(())),
        healthy(),
    );
    assert!(is_receive(&step, false));
    let step = service.monitor_incoming_messages(
        IncomingState::Submitting,
        IncomingEvent::SolutionSubmitted(Err(TemplateDataError::InvalidMerkleRoot)),
        healthy(),
    );
    assert!(is_stop(&step, true));
}

#[test]
fn solution_for_an_unknown_template_ends_the_connection() {
    let step = receive(&mut service(), solution(4));
    assert!(is_stop(&step, true));
}

#[test]
fn messages_of_a_provider_are_ignored() {
    for message in vec![
        IncomingMessage::NewTemplate,
        IncomingMessage::SetNewPrevHash,
        IncomingMessage::RequestTransactionDataSuccess,
        IncomingMessage::RequestTransactionDataError,
    ] {
        let mut service = service();
        let step = receive(&mut service, message);
        assert!(is_receive(&step, false));
        assert_eq!(service.template_data.len(), 1);
        assert!(!service.template_token_cancelled);
    }
}

#[test]
fn unawaited_events_leave_the_task_alone() {
    let mut service = service();
    let step = service.monitor_incoming_messages(
        IncomingState::Submitting,
        IncomingEvent::GlobalCancelled,
        healthy(),
    );
    assert_eq!(step.state, IncomingState::Submitting);
    assert!(matches!(step.action, IncomingAction::KeepWaiting));
}

#[test]
fn nothing_is_distributed_before_constraints() {
    let mut service = BitcoinCoreSv2::new(cap(1), cap(2), 100);
    let mut state = IncomingState::Receiving;
    let events = vec![
        IncomingEvent::Received(IncomingMessage::NewTemplate),
        IncomingEvent::Received(IncomingMessage::RequestTransactionData(
            RequestTransactionData { template_id: 1 },
        )),
        IncomingEvent::AnswerSent(true),
        IncomingEvent::Received(IncomingMessage::SetNewPrevHash),
        IncomingEvent::ChannelClosed,
    ];
    for event in events {
        let step = service.monitor_incoming_messages(state, event, healthy());
        assert!(!step.spawn_template_monitor);
        assert!(!matches!(
            step.action,
            IncomingAction::Send(OutgoingMessage::NewTemplate { .. })
                | IncomingAction::Send(OutgoingMessage::SetNewPrevHash { .. })
                | IncomingAction::CreateTemplateClient(_)
        ));
        state = step.state;
    }
    assert_eq!(service.current_template_ipc_client, None);
}

#[test]
fn constraints_in_a_row_are_counted() {
    let mut service = BitcoinCoreSv2::new(cap(1), cap(2), 100);
    let mut fired: Vec<bool> = Vec::new();
    for round in 0..3u64 {
        let constraints = CoinbaseOutputConstraints {
            coinbase_output_max_additional_size: 2,
            coinbase_output_max_additional_sigops: 7,
        };
        let step = receive(&mut service, IncomingMessage::CoinbaseOutputConstraints(constraints));
        assert!(!step.spawn_template_monitor);
        if let Some(last) = fired.last_mut() {
            *last = service.template_token_cancelled;
        }
        let step = service.monitor_incoming_messages(
            step.state,
            IncomingEvent::TemplateClientCreated(Ok(cap(40 + round))),
            healthy(),
        );
        assert!(is_receive(&step, true));
        fired.push(service.template_token_cancelled);
    }
    assert_eq!(fired, vec![true, true, false]);
    assert_eq!(service.coinbase_output_constraints_counter, 3);
}

#[test]
fn one_handler_works_at_a_time() {
    let mut service = service();
    let step = receive(&mut service, solution(3));
    assert_eq!(step.state, IncomingState::Submitting);
    let step = service.monitor_incoming_messages(
        step.state,
        IncomingEvent::Received(solution(3)),
        healthy(),
    );
    assert_eq!(step.state, IncomingState::Submitting);
    assert!(matches!(step.action, IncomingAction::KeepWaiting));
    let step = service.monitor_incoming_messages(
        step.state,
        IncomingEvent::SolutionSubmitted(Ok(())),
        healthy(),
    );
    assert!(is_receive(&step, false));
    let step = receive(&mut service, solution(3));
    assert!(matches!(step.action, IncomingAction::Submit(_)));
}
