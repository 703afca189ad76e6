//! What the contracts speak of is all that there is: no view leaves out or changes a
//! field.
use crate::fetch::{
    ConcurrentState, ConcurrentStateView, FetchAction, FetchActionView, SequentialState,
    SequentialStateView, TemplateData, TemplateDataView,
};
use crate::incoming_monitor::{IncomingAction, IncomingActionView, IncomingStep};
use crate::messages::{OutgoingMessage, OutgoingView};
use crate::service::BitcoinCoreSv2;
use crate::template_monitor::{
    MonitorAction, MonitorActionView, MonitorState, MonitorStateView, MonitorStep,
};
use crate::types::{Transaction, TxIn, TxOut};
use vstd::prelude::*;

verus! {

/// The shared state, field by field.
pub proof fn law_service_is_seen_whole(service: BitcoinCoreSv2)
    ensures
        service@.thread_map == service.thread_map,
        service@.thread_ipc_client == service.thread_ipc_client,
        service@.fee_threshold == service.fee_threshold,
        service@.template_client == service.current_template_ipc_client,
        service@.prev_hash == service.current_prev_hash,
        service@.templates == service.template_data@,
        service@.stale == service.stale_template_ids@,
        service@.constraints_counter == service.coinbase_output_constraints_counter,
        service@.template_token_cancelled == service.template_token_cancelled,
{
}

/// A message that goes out.
pub proof fn law_message_is_seen_whole(message: OutgoingMessage)
    ensures
        match message@ {
            OutgoingView::NewTemplate { template, future_template } => message == (
            OutgoingMessage::NewTemplate { template, future_template }),
            OutgoingView::SetNewPrevHash { template } => message == (
            OutgoingMessage::SetNewPrevHash { template }),
            OutgoingView::RequestTransactionDataSuccess { template } => message == (
            OutgoingMessage::RequestTransactionDataSuccess { template }),
            OutgoingView::RequestTransactionDataError { template_id, error_code } => {
                &&& message matches OutgoingMessage::RequestTransactionDataError(error)
                &&& error.template_id == template_id
                &&& error.error_code@ == error_code
            },
        },
{
}

/// Where a template monitor stands.
pub proof fn law_monitor_state_is_seen_whole(state: MonitorState)
    ensures
        match state@ {
            MonitorStateView::Starting => state is Starting,
            MonitorStateView::MakingThread => state is MakingThread,
            MonitorStateView::Waiting { thread, template_client } => state == (
            MonitorState::Waiting { thread, template_client }),
            MonitorStateView::Interrupting => state is Interrupting,
            MonitorStateView::Fetching { thread } => state == (MonitorState::Fetching { thread }),
            MonitorStateView::Destroying { thread, template, remaining } => {
                &&& state matches MonitorState::Destroying {
                    thread: own,
                    template: new,
                    remaining: left,
                }
                &&& own == thread
                &&& new == template
                &&& left@ == remaining
            },
            MonitorStateView::SendingFuture { thread, template } => state == (
            MonitorState::SendingFuture { thread, template }),
            MonitorStateView::SendingPrevHash { thread, template } => state == (
            MonitorState::SendingPrevHash { thread, template }),
            MonitorStateView::SendingCurrent { thread, template } => state == (
            MonitorState::SendingCurrent { thread, template }),
            MonitorStateView::Stopped => state is Stopped,
        },
{
}

/// What a template monitor does.
pub proof fn law_monitor_action_is_seen_whole(action: MonitorAction)
    ensures
        match action@ {
            MonitorActionView::MakeThread { thread_map } => action == (MonitorAction::MakeThread {
                thread_map,
            }),
            MonitorActionView::WaitNext {
                template_client,
                thread,
                fee_threshold,
                timeout_ms,
            } => {
                &&& action matches MonitorAction::WaitNext {
                    template_client: client,
                    thread: on,
                    fee_threshold: fee,
                    timeout_ms: timeout,
                }
                &&& client == template_client
                &&& on == thread
                &&& fee == fee_threshold
                &&& timeout == timeout_ms
            },
            MonitorActionView::InterruptWait { template_client } => action == (
            MonitorAction::InterruptWait { template_client }),
            MonitorActionView::FetchTemplate { template_client } => action == (
            MonitorAction::FetchTemplate { template_client }),
            MonitorActionView::DestroyClient { client, thread } => action == (
            MonitorAction::DestroyClient { client, thread }),
            MonitorActionView::Send(message) => action matches MonitorAction::Send(sent) && sent@
                == message,
            MonitorActionView::Stop => action is Stop,
            MonitorActionView::KeepWaiting => action is KeepWaiting,
        },
{
}

/// A step of a template monitor.
pub proof fn law_monitor_step_is_seen_whole(step: MonitorStep)
    ensures
        step@.state == step.state@,
        step@.cancel_global == step.cancel_global,
        step@.action == step.action@,
{
}

/// What the task that takes messages does.
pub proof fn law_incoming_action_is_seen_whole(action: IncomingAction)
    ensures
        match action@ {
            IncomingActionView::Receive => action is Receive,
            IncomingActionView::AwaitCancellation => action is AwaitCancellation,
            IncomingActionView::CreateTemplateClient(request) => action
                == IncomingAction::CreateTemplateClient(request),
            IncomingActionView::Send(message) => action matches IncomingAction::Send(sent)
                && sent@ == message,
            IncomingActionView::Submit { template, thread, solution } => {
                &&& action matches IncomingAction::Submit(call)
                &&& call.template == template
                &&& call.thread == thread
                &&& call.solution == solution
            },
            IncomingActionView::Stop => action is Stop,
            IncomingActionView::KeepWaiting => action is KeepWaiting,
        },
{
}

/// A step of the task that takes messages.
pub proof fn law_incoming_step_is_seen_whole(step: IncomingStep)
    ensures
        step@.state == step.state,
        step@.cancel_global == step.cancel_global,
        step@.spawn_template_monitor == step.spawn_template_monitor,
        step@.action == step.action@,
{
}

/// A transaction, with its inputs and outputs in order.
pub proof fn law_transaction_is_seen_whole(tx: Transaction)
    ensures
        tx@.version == tx.version,
        tx@.lock_time == tx.lock_time,
        tx@.input.len() == tx.input@.len(),
        tx@.output.len() == tx.output@.len(),
        forall|i: int| 0 <= i < tx.input@.len() ==> #[trigger] tx@.input[i] == tx.input@[i]@,
        forall|i: int| 0 <= i < tx.output@.len() ==> #[trigger] tx@.output[i] == tx.output@[i]@,
{
}

/// An input and an output of a transaction.
pub proof fn law_input_and_output_are_seen_whole(input: TxIn, output: TxOut)
    ensures
        input@.previous_output == input.previous_output,
        input@.script_sig == input.script_sig@,
        input@.sequence == input.sequence,
        input@.witness.len() == input.witness@.len(),
        forall|i: int|
            0 <= i < input.witness@.len() ==> #[trigger] input@.witness[i] == input.witness@[i]@,
        output@.value == output.value,
        output@.script_pubkey == output.script_pubkey@,
{
}

/// The contents of a list of byte strings are those of each, in order.
pub proof fn law_byte_strings_are_seen_whole(list: Seq<Vec<u8>>)
    ensures
        crate::types::byte_strings(list).len() == list.len(),
        forall|i: int|
            0 <= i < list.len() ==> #[trigger] crate::types::byte_strings(list)[i] == list[i]@,
{
}

/// The data of a template.
pub proof fn law_template_data_is_seen_whole(data: TemplateData)
    ensures
        data@.header == data.header,
        data@.coinbase_tx == data.coinbase_tx@,
        data@.merkle_path.len() == data.merkle_path@.len(),
        forall|i: int|
            0 <= i < data.merkle_path@.len() ==> #[trigger] data@.merkle_path[i]
                == data.merkle_path@[i]@,
{
}

/// What a fetch does.
pub proof fn law_fetch_action_is_seen_whole(action: FetchAction)
    ensures
        match action@ {
            FetchActionView::MakeThread { thread_map } => action == (FetchAction::MakeThread {
                thread_map,
            }),
            FetchActionView::GetBlockHeader(call) => action == FetchAction::GetBlockHeader(call),
            FetchActionView::GetCoinbaseTx(call) => action == FetchAction::GetCoinbaseTx(call),
            FetchActionView::GetCoinbaseMerklePath(call) => action
                == FetchAction::GetCoinbaseMerklePath(call),
            FetchActionView::GetAll { header, coinbase_tx, merkle_path } => action == (
            FetchAction::GetAll { header, coinbase_tx, merkle_path }),
            FetchActionView::Finish(Ok(seen)) => action matches FetchAction::Finish(Ok(data))
                && data@ == seen,
            FetchActionView::Finish(Err(seen)) => action matches FetchAction::Finish(Err(error))
                && error == seen,
            FetchActionView::KeepWaiting => action is KeepWaiting,
        },
{
}

/// Where a sequential fetch stands.
pub proof fn law_sequential_state_is_seen_whole(state: SequentialState)
    ensures
        match state@ {
            SequentialStateView::Starting => state is Starting,
            SequentialStateView::MakingThread => state is MakingThread,
            SequentialStateView::GettingHeader { thread } => state == (
            SequentialState::GettingHeader { thread }),
            SequentialStateView::GettingCoinbaseTx { thread, header } => state == (
            SequentialState::GettingCoinbaseTx { thread, header }),
            SequentialStateView::GettingMerklePath { header, coinbase_tx } => {
                &&& state matches SequentialState::GettingMerklePath {
                    header: kept,
                    coinbase_tx: tx,
                }
                &&& kept == header
                &&& tx@ == coinbase_tx
            },
            SequentialStateView::Done => state is Done,
        },
{
}

/// Where a concurrent fetch stands.
pub proof fn law_concurrent_state_is_seen_whole(state: ConcurrentState)
    ensures
        match state@ {
            ConcurrentStateView::Starting => state is Starting,
            ConcurrentStateView::Getting { header, coinbase_tx, merkle_path } => {
                &&& state matches ConcurrentState::Getting {
                    header: has_header,
                    coinbase_tx: has_tx,
                    merkle_path: has_path,
                }
                &&& has_header == header
                &&& has_tx is Some <==> coinbase_tx is Some
                &&& has_tx matches Some(tx) ==> coinbase_tx == Some(tx@)
                &&& has_path is Some <==> merkle_path is Some
                &&& has_path matches Some(path) ==> merkle_path->0.len() == path@.len()
                    && forall|i: int|
                    0 <= i < path@.len() ==> #[trigger] merkle_path->0[i] == path@[i]@
            },
            ConcurrentStateView::Done => state is Done,
        },
{
}

} // verus!
