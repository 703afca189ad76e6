//! What the service does about each message of a peer.
//!
//! Each handler awaits something once: a client from the node, the delivery of an
//! answer, the node's verdict. So each comes in two halves, the decision what to ask
//! for and what follows from the outcome.
use crate::error::{BitcoinCoreSv2Error, TemplateDataError};
use crate::messages::{
    CoinbaseOutputConstraints, OutgoingMessage, OutgoingView, RequestTransactionData,
    StoredTemplate, SubmitSolution,
};
use crate::service::{BitcoinCoreSv2, Lock, Locks, ServiceView};
use crate::types::Capability;
use vstd::prelude::*;

verus! {

broadcast use vstd::std_specs::hash::group_hash_axioms;

/// A template client to ask the node for.
#[derive(Clone, Copy, Debug, PartialEq, Eq, Structural)]
pub struct TemplateClientRequest {
    pub coinbase_output_max_additional_size: u32,
    pub coinbase_output_max_additional_sigops: u16,
}

/// A solution to hand to the node: to the object of `template`, on `thread`.
#[derive(Debug)]
pub struct SolutionCall {
    pub template: StoredTemplate,
    pub thread: Capability,
    pub solution: SubmitSolution,
}

impl ServiceView {
    /// The state once the template monitor that runs has been told to end.
    pub open spec fn monitor_ended(self) -> ServiceView {
        ServiceView { template_token_cancelled: true, ..self }
    }

    /// The state once `client` is the newest template and a monitor with a token of
    /// its own may be started for it.
    pub open spec fn client_replaced(self, client: Capability) -> ServiceView {
        ServiceView {
            template_client: Some(client),
            template_token_cancelled: false,
            constraints_counter: if self.constraints_counter == u64::MAX {
                0
            } else {
                (self.constraints_counter + 1) as u64
            },
            ..self
        }
    }

    /// What a peer is told that asks for the transactions of `template_id`.
    pub open spec fn transaction_data_answer(self, template_id: u64) -> OutgoingView {
        if self.stale.contains(template_id) {
            OutgoingView::RequestTransactionDataError {
                template_id,
                error_code: crate::messages::stale_code(),
            }
        } else if self.templates.contains_key(template_id) {
            OutgoingView::RequestTransactionDataSuccess { template: self.templates[template_id] }
        } else {
            OutgoingView::RequestTransactionDataError {
                template_id,
                error_code: crate::messages::not_found_code(),
            }
        }
    }

    /// Whether a request for the transactions of `template_id` can be decided: the
    /// stale templates are looked at first, the others only if that settles nothing.
    pub open spec fn can_answer(self, template_id: u64, locks: Locks) -> bool {
        &&& locks.stale_template_ids == Lock::Healthy
        &&& self.stale.contains(template_id) || locks.template_data == Lock::Healthy
    }

    /// Whether a solution for `template_id` can be handed on.
    pub open spec fn can_submit(self, template_id: u64, locks: Locks) -> bool {
        &&& locks.template_data == Lock::Healthy
        &&& self.templates.contains_key(template_id)
    }
}

impl BitcoinCoreSv2 {
    /// A peer states its constraints: the template monitor that runs is ended, and the
    /// node is asked for a client whose templates meet them.
    pub fn handle_coinbase_output_constraints(
        &mut self,
        coinbase_output_constraints: CoinbaseOutputConstraints,
    ) -> (request: TemplateClientRequest)
        ensures
            final(self)@ == old(self)@.monitor_ended(),
            request.coinbase_output_max_additional_size
                == coinbase_output_constraints.coinbase_output_max_additional_size,
            request.coinbase_output_max_additional_sigops
                == coinbase_output_constraints.coinbase_output_max_additional_sigops,
    {
        self.template_token_cancelled = true;
        TemplateClientRequest {
            coinbase_output_max_additional_size:
                coinbase_output_constraints.coinbase_output_max_additional_size,
            coinbase_output_max_additional_sigops:
                coinbase_output_constraints.coinbase_output_max_additional_sigops,
        }
    }

    /// The node has made a client for new constraints, or failed to. With a client, a
    /// template monitor is due; without one, nothing changes and the error is passed on.
    pub fn template_client_created(
        &mut self,
        created: Result<Capability, BitcoinCoreSv2Error>,
    ) -> (res: Result<(), BitcoinCoreSv2Error>)
        ensures
            match created {
                Ok(client) => res is Ok && final(self)@ == old(self)@.client_replaced(client),
                Err(error) => res == Err::<(), BitcoinCoreSv2Error>(error) && final(self)@ == old(
                    self,
                )@,
            },
    {
        match created {
            Ok(client) => {
                self.current_template_ipc_client = Some(client);
                self.template_token_cancelled = false;
                self.coinbase_output_constraints_counter =
                self.coinbase_output_constraints_counter.wrapping_add(1);
                Ok(())
            },
            Err(error) => Err(error),
        }
    }

    /// A peer asks for the transactions of a template: what it is told.
    pub fn handle_request_transaction_data(
        &self,
        request_transaction_data: RequestTransactionData,
        locks: Locks,
    ) -> (res: Result<OutgoingMessage, BitcoinCoreSv2Error>)
        ensures
            res is Ok <==> self@.can_answer(request_transaction_data.template_id, locks),
            res matches Ok(answer) ==> answer@ == self@.transaction_data_answer(
                request_transaction_data.template_id,
            ),
            res matches Err(error) ==> error
                is FailedToSendRequestTransactionDataResponseMessage,
    {
        let template_id: u64 = request_transaction_data.template_id;
        match locks.stale_template_ids {
            Lock::Healthy => {},
            Lock::Poisoned => {
                return Err(BitcoinCoreSv2Error::FailedToSendRequestTransactionDataResponseMessage);
            },
        }
        if self.stale_template_ids.contains(&template_id) {
            return Ok(
                OutgoingMessage::RequestTransactionDataError(
                    crate::messages::stale_template(template_id),
                ),
            );
        }
        match locks.template_data {
            Lock::Healthy => {},
            Lock::Poisoned => {
                return Err(BitcoinCoreSv2Error::FailedToSendRequestTransactionDataResponseMessage);
            },
        }
        match self.template_data.get(&template_id) {
            Some(template) => Ok(
                OutgoingMessage::RequestTransactionDataSuccess { template: *template },
            ),
            None => Ok(
                OutgoingMessage::RequestTransactionDataError(
                    crate::messages::template_not_found(template_id),
                ),
            ),
        }
    }

    /// An answer to a request for transactions was delivered, or could not be.
    pub fn transaction_data_answered(sent: bool) -> (res: Result<(), BitcoinCoreSv2Error>)
        ensures
            res is Ok <==> sent,
            res matches Err(error) ==> error
                is FailedToSendRequestTransactionDataResponseMessage,
    {
        if sent {
            Ok(())
        } else {
            Err(BitcoinCoreSv2Error::FailedToSendRequestTransactionDataResponseMessage)
        }
    }

    /// A peer has found a block: the call that hands it to the node, on the template it
    /// is for. Stale or not, the template must be kept.
    pub fn handle_submit_solution(
        &self,
        submit_solution: SubmitSolution,
        locks: Locks,
    ) -> (res: Result<SolutionCall, BitcoinCoreSv2Error>)
        ensures
            res is Ok <==> self@.can_submit(submit_solution.template_id, locks),
            res matches Ok(call) ==> {
                &&& call.template == self@.templates[submit_solution.template_id]
                &&& call.thread == self@.thread_ipc_client
                &&& call.solution == submit_solution
            },
            res matches Err(error) ==> error is TemplateNotFound,
    {
        match locks.template_data {
            Lock::Healthy => {},
            Lock::Poisoned => {
                return Err(BitcoinCoreSv2Error::TemplateNotFound);
            },
        }
        match self.template_data.get(&submit_solution.template_id) {
            Some(template) => Ok(
                SolutionCall {
                    template: *template,
                    thread: self.thread_ipc_client,
                    solution: submit_solution,
                },
            ),
            None => Err(BitcoinCoreSv2Error::TemplateNotFound),
        }
    }

    /// The node has taken a solution, or turned it down.
    pub fn solution_submitted(outcome: Result<(), TemplateDataError>) -> (res: Result<
        (),
        BitcoinCoreSv2Error,
    >)
        ensures
            res is Ok <==> outcome is Ok,
            res matches Err(error) ==> error is FailedToSubmitSolution,
    {
        match outcome {
            Ok(()) => Ok(()),
            Err(_) => Err(BitcoinCoreSv2Error::FailedToSubmitSolution),
        }
    }
}

} // verus!
