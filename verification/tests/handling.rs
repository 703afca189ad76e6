use bitcoin_core_sv2::error::{BitcoinCoreSv2Error, TemplateDataError};
use bitcoin_core_sv2::messages::{
    CoinbaseOutputConstraints, OutgoingMessage, RequestTransactionData, StoredTemplate,
    SubmitSolution,
};
use bitcoin_core_sv2::service::{BitcoinCoreSv2, Lock, Locks};
use bitcoin_core_sv2::types::{BlockHash, Capability};

fn cap(id: u64) -> Capability {
    Capability { id }
}

fn template(template_id: u64, block: u8) -> StoredTemplate {
    StoredTemplate {
        template_id,
        prev_hash: BlockHash { bytes: [block; 32] },
        ipc_client: cap(1000 + template_id),
    }
}

fn service() -> BitcoinCoreSv2 {
    BitcoinCoreSv2::new(cap(1), cap(2), 100)
}

fn locks(stale: Lock, data: Lock) -> Locks {
    Locks { template_data: data, stale_template_ids: stale }
}

fn healthy() -> Locks {
    locks(Lock::Healthy, Lock::Healthy)
}

fn solution(template_id: u64) -> SubmitSolution {
    SubmitSolution {
        template_id,
        version: 4,
        header_timestamp: 5,
        header_nonce: 6,
        coinbase_tx: vec![1, 2, 3],
    }
}

fn refusal(service: &BitcoinCoreSv2, template_id: u64) -> (u64, Vec<u8>) {
    let answer =
        service.handle_request_transaction_data(RequestTransactionData { template_id }, healthy());
    match answer {
        Ok(OutgoingMessage::RequestTransactionDataError(error)) => {
            (error.template_id, error.error_code)
        }
        other => panic!("no refusal: {:?}", other),
    }
}

fn granted(service: &BitcoinCoreSv2, template_id: u64) -> StoredTemplate {
    let answer =
        service.handle_request_transaction_data(RequestTransactionData { template_id }, healthy());
    match answer {
        Ok(OutgoingMessage::RequestTransactionDataSuccess { template }) => template,
        other => panic!("no success: {:?}", other),
    }
}

#[test]
fn unknown_template_is_refused() {
    assert_eq!(refusal(&service(), 3), (3, b"template-id-not-found".to_vec()));
}

#[test]
fn kept_template_is_granted() {
    let mut service = service();
    service.save_template(template(3, 9));
    let answer = granted(&service, 3);
    assert_eq!(answer.template_id, 3);
    assert_eq!(answer.ipc_client, cap(1003));
}

#[test]
fn stale_template_is_refused() {
    let mut service = service();
    service.save_template(template(3, 9));
    service.save_template(template(4, 9));
    let mut retired: Vec<u64> =
        service.change_tip(template(5, 10)).iter().map(|t| t.template_id).collect();
    retired.sort();
    assert_eq!(retired, vec![3, 4]);
    assert_eq!(refusal(&service, 3), (3, b"stale-template-id".to_vec()));
    assert_eq!(refusal(&service, 4), (4, b"stale-template-id".to_vec()));
    assert_eq!(granted(&service, 5).template_id, 5);
    assert_eq!(refusal(&service, 6), (6, b"template-id-not-found".to_vec()));
    assert_eq!(service.current_prev_hash.unwrap().bytes, [10u8; 32]);
}

#[test]
fn stale_is_looked_at_before_kept() {
    let mut service = service();
    service.save_template(template(3, 9));
    service.change_tip(template(3, 10));
    assert!(service.template_data.contains_key(&3));
    assert_eq!(refusal(&service, 3), (3, b"stale-template-id".to_vec()));
}

#[test]
fn second_change_of_the_tip_forgets_stale_templates() {
    let mut service = service();
    service.save_template(template(3, 9));
    service.change_tip(template(4, 10));
    service.change_tip(template(5, 11));
    assert_eq!(refusal(&service, 3), (3, b"template-id-not-found".to_vec()));
    assert_eq!(refusal(&service, 4), (4, b"stale-template-id".to_vec()));
}

#[test]
fn poisoned_locks_leave_requests_unanswered() {
    let mut service = service();
    service.save_template(template(3, 9));
    service.change_tip(template(4, 10));
    let ask = |id: u64, locks: Locks| {
        service.handle_request_transaction_data(RequestTransactionData { template_id: id }, locks)
    };
    assert!(matches!(
        ask(3, locks(Lock::Poisoned, Lock::Healthy)),
        Err(BitcoinCoreSv2Error::FailedToSendRequestTransactionDataResponseMessage)
    ));
    assert!(matches!(
        ask(4, locks(Lock::Healthy, Lock::Poisoned)),
        Err(BitcoinCoreSv2Error::FailedToSendRequestTransactionDataResponseMessage)
    ));
    // what is stale is known without the other lock
    assert!(matches!(
        ask(3, locks(Lock::Healthy, Lock::Poisoned)),
        Ok(OutgoingMessage::RequestTransactionDataError(_))
    ));
}

#[test]
fn answers_that_are_not_delivered_are_errors() {
    assert!(BitcoinCoreSv2::transaction_data_answered(true).is_ok());
    assert!(matches!(
        BitcoinCoreSv2::transaction_data_answered(false),
        Err(BitcoinCoreSv2Error::FailedToSendRequestTransactionDataResponseMessage)
    ));
}

#[test]
fn constraints_end_the_monitor_and_ask_for_a_client() {
    let mut service = service();
    let request = service.handle_coinbase_output_constraints(CoinbaseOutputConstraints {
        coinbase_output_max_additional_size: 70,
        coinbase_output_max_additional_sigops: 8,
    });
    assert_eq!(request.coinbase_output_max_additional_size, 70);
    assert_eq!(request.coinbase_output_max_additional_sigops, 8);
    assert!(service.template_token_cancelled);
    assert_eq!(service.current_template_ipc_client, None);
    assert_eq!(service.coinbase_output_constraints_counter, 0);

    assert!(service.template_client_created(Ok(cap(50))).is_ok());
    assert!(!service.template_token_cancelled);
    assert_eq!(service.current_template_ipc_client, Some(cap(50)));
    assert_eq!(service.coinbase_output_constraints_counter, 1);
}

#[test]
fn missing_client_is_passed_on() {
    let mut service = service();
    service.handle_coinbase_output_constraints(CoinbaseOutputConstraints {
        coinbase_output_max_additional_size: 1,
        coinbase_output_max_additional_sigops: 1,
    });
    let outcome =
        service.template_client_created(Err(BitcoinCoreSv2Error::TemplateIpcClientNotFound));
    assert!(matches!(outcome, Err(BitcoinCoreSv2Error::TemplateIpcClientNotFound)));
    assert!(service.template_token_cancelled);
    assert_eq!(service.coinbase_output_constraints_counter, 0);
}

#[test]
fn counter_of_constraints_wraps() {
    let mut service = service();
    service.coinbase_output_constraints_counter = u64::MAX;
    assert!(service.template_client_created(Ok(cap(50))).is_ok());
    assert_eq!(service.coinbase_output_constraints_counter, 0);
}

#[test]
fn solution_goes_to_its_template() {
    let mut service = service();
    service.save_template(template(3, 9));
    let call = service.handle_submit_solution(solution(3), healthy()).unwrap();
    assert_eq!(call.template.template_id, 3);
    assert_eq!(call.thread, cap(2));
    assert_eq!(call.solution.template_id, 3);
    assert_eq!(call.solution.version, 4);
    assert_eq!(call.solution.header_timestamp, 5);
    assert_eq!(call.solution.header_nonce, 6);
    assert_eq!(call.solution.coinbase_tx, vec![1, 2, 3]);
}

#[test]
fn solution_for_an_unknown_template_is_an_error() {
    let mut service = service();
    service.save_template(template(3, 9));
    assert!(matches!(
        service.handle_submit_solution(solution(4), healthy()),
        Err(BitcoinCoreSv2Error::TemplateNotFound)
    ));
    assert!(matches!(
        service.handle_submit_solution(solution(3), locks(Lock::Healthy, Lock::Poisoned)),
        Err(BitcoinCoreSv2Error::TemplateNotFound)
    ));
    // the other lock is not needed
    assert!(service
        .handle_submit_solution(solution(3), locks(Lock::Poisoned, Lock::Healthy))
        .is_ok());
}

#[test]
fn solution_turned_down_is_an_error() {
    assert!(BitcoinCoreSv2::solution_submitted(Ok(())).is_ok());
    assert!(matches!(
        BitcoinCoreSv2::solution_submitted(Err(TemplateDataError::FailedIpcSubmitSolution)),
        Err(BitcoinCoreSv2Error::FailedToSubmitSolution)
    ));
}
