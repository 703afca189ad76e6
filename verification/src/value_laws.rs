//! What the values of the library hold, in numbers and texts.
use crate::error::{BitcoinCoreSv2Error, TemplateDataError};
use crate::messages::StoredTemplate;
use crate::objects::NodeObject;
use crate::service::ServiceView;
use crate::template_monitor::{MonitorActionView, MonitorStateView, MonitorStepView};
use crate::types::{BlockHash, BlockHeader, TransactionView};
use vstd::prelude::*;

verus! {

/// Two block hashes are equal just when all their bytes are.
pub proof fn law_hashes_are_compared_byte_by_byte(one: BlockHash, other: BlockHash)
    ensures
        vstd::std_specs::cmp::PartialEqSpec::eq_spec(&one, &other) <==> forall|i: int|
            0 <= i < 32 ==> #[trigger] one.bytes@[i] == other.bytes@[i],
{
    if forall|i: int| 0 <= i < 32 ==> #[trigger] one.bytes@[i] == other.bytes@[i] {
        assert(one.bytes =~= other.bytes);
    }
}

/// An error of another crate is kept inside, under what it stands for.
pub proof fn law_errors_are_kept_inside(
    failed: capnp::Error,
    unreadable: bitcoin::consensus::encode::Error,
)
    ensures
        <BitcoinCoreSv2Error as vstd::std_specs::convert::FromSpec<capnp::Error>>::from_spec(failed)
            == BitcoinCoreSv2Error::CapnpError(failed),
        <BitcoinCoreSv2Error as vstd::std_specs::convert::FromSpec<
            bitcoin::consensus::encode::Error,
        >>::from_spec(unreadable) == BitcoinCoreSv2Error::InvalidTemplateHeader(unreadable),
        <TemplateDataError as vstd::std_specs::convert::FromSpec<capnp::Error>>::from_spec(failed)
            == TemplateDataError::CapnpError(failed),
        <TemplateDataError as vstd::std_specs::convert::FromSpec<
            bitcoin::consensus::encode::Error,
        >>::from_spec(unreadable) == TemplateDataError::InvalidCoinbaseTx(unreadable),
{
}

/// The message for an error says what kind it is and, behind that, all of the text of the
/// error inside it; one that holds no other says its kind alone.
pub proof fn law_messages_name_kind_and_detail(error: TemplateDataError, detail: Seq<char>)
    ensures
        error is InvalidCoinbaseTx ==> error.message_text(detail)
            == "Invalid coinbase transaction: "@ + detail,
        error is InvalidSolution ==> error.message_text(detail) == "Invalid solution: "@ + detail,
        error is CapnpError ==> error.message_text(detail) == "Cap'n Proto error: "@ + detail,
        error is InvalidMerkleRoot ==> error.message_text(detail) == "Invalid merkle root"@,
        error is FailedIpcSubmitSolution ==> error.message_text(detail)
            == "Failed to submit solution via IPC"@,
{
}

/// The detail of a message is how the very error inside displays.
pub proof fn law_detail_is_of_the_error_inside(error: TemplateDataError, text: String)
    ensures
        error.displays_inside(text) <==> match error {
            TemplateDataError::InvalidCoinbaseTx(inside) =>
                vstd::string::to_string_from_display_ensures(&inside, text),
            TemplateDataError::InvalidSolution(inside) =>
                vstd::string::to_string_from_display_ensures(&inside, text),
            TemplateDataError::CapnpError(inside) => vstd::string::to_string_from_display_ensures(
                &inside,
                text,
            ),
            TemplateDataError::InvalidMerkleRoot => text@.len() == 0,
            TemplateDataError::FailedIpcSubmitSolution => text@.len() == 0,
        },
{
    if text@.len() == 0 {
        assert(text@ =~= Seq::empty());
    }
}

/// Keeping a template puts it under its number and touches nothing else.
pub proof fn law_saving_keeps_one_more(service: ServiceView, template: StoredTemplate)
    ensures
        ({
            let saved = service.saved(template);
            &&& saved.templates.contains_key(template.template_id)
            &&& saved.templates[template.template_id] == template
            &&& forall|id: u64|
                id != template.template_id ==> (#[trigger] saved.templates.contains_key(id)
                    <==> service.templates.contains_key(id))
            &&& forall|id: u64|
                id != template.template_id && #[trigger] service.templates.contains_key(id)
                    ==> saved.templates[id] == service.templates[id]
            &&& saved == (ServiceView { templates: saved.templates, ..service })
        }),
{
}

/// A new tip leaves one template, on it, and makes stale just what was kept.
pub proof fn law_new_tip_leaves_one_template(service: ServiceView, template: StoredTemplate)
    ensures
        ({
            let changed = service.tip_changed(template);
            &&& changed.prev_hash == Some(template.prev_hash)
            &&& forall|id: u64| #[trigger]
                changed.stale.contains(id) <==> service.templates.contains_key(id)
            &&& forall|id: u64| #[trigger]
                changed.templates.contains_key(id) <==> id == template.template_id
            &&& changed.templates[template.template_id] == template
            &&& changed == (ServiceView {
                prev_hash: changed.prev_hash,
                stale: changed.stale,
                templates: changed.templates,
                ..service
            })
        }),
{
}

/// What the two invariants of the shared state mean.
pub proof fn law_invariants_of_what_is_kept(service: ServiceView)
    ensures
        service.well_formed() <==> forall|id: u64| #[trigger]
            service.templates.contains_key(id) ==> service.templates[id].template_id == id,
        service.all_on_tip() <==> forall|id: u64| #[trigger]
            service.templates.contains_key(id) ==> service.prev_hash == Some(
                service.templates[id].prev_hash,
            ),
{
    if forall|id: u64| #[trigger]
        service.templates.contains_key(id) ==> service.prev_hash == Some(
            service.templates[id].prev_hash,
        ) {
        assert forall|id: u64| #[trigger] service.templates.contains_key(id) implies service.on_tip(
            service.templates[id],
        ) by {}
    }
    if service.all_on_tip() {
        assert forall|id: u64| #[trigger]
            service.templates.contains_key(id) implies service.prev_hash == Some(
            service.templates[id].prev_hash,
        ) by {
            assert(service.on_tip(service.templates[id]));
        }
    }
}

/// A header has 80 bytes: four of the version, 32 of the hash before and 32 of the merkle
/// root as they stand, and four each of the time, the target and the nonce, least
/// significant byte first.
pub proof fn law_header_byte_by_byte(bytes: Seq<u8>, header: BlockHeader)
    requires
        crate::decode::encodes_header(bytes, header),
    ensures
        crate::decode::HEADER_SIZE == 80,
        bytes.len() == 80,
        (header.version < 0) <==> bytes[3] >= 0x80,
        bytes[0] + 0x100 * bytes[1] + 0x1_0000 * bytes[2] + 0x100_0000 * bytes[3] == (if header.version
            < 0 {
            header.version + 0x1_0000_0000
        } else {
            header.version as int
        }),
        forall|i: int|
            0 <= i < 32 ==> #[trigger] header.prev_blockhash.bytes@[i] == bytes[4 + i],
        forall|i: int| 0 <= i < 32 ==> #[trigger] header.merkle_root.bytes@[i] == bytes[36 + i],
        header.time == bytes[68] + 0x100 * bytes[69] + 0x1_0000 * bytes[70] + 0x100_0000
            * bytes[71],
        header.bits == bytes[72] + 0x100 * bytes[73] + 0x1_0000 * bytes[74] + 0x100_0000
            * bytes[75],
        header.nonce == bytes[76] + 0x100 * bytes[77] + 0x1_0000 * bytes[78] + 0x100_0000
            * bytes[79],
{
}

/// Bytes encode every header that stands in them in that way.
pub proof fn law_header_that_stands_there_is_encoded(bytes: Seq<u8>, header: BlockHeader)
    requires
        bytes.len() == 80,
        bytes[0] + 0x100 * bytes[1] + 0x1_0000 * bytes[2] + 0x100_0000 * bytes[3] == (if header.version
            < 0 {
            header.version + 0x1_0000_0000
        } else {
            header.version as int
        }),
        forall|i: int|
            0 <= i < 32 ==> #[trigger] header.prev_blockhash.bytes@[i] == bytes[4 + i],
        forall|i: int| 0 <= i < 32 ==> #[trigger] header.merkle_root.bytes@[i] == bytes[36 + i],
        header.time == bytes[68] + 0x100 * bytes[69] + 0x1_0000 * bytes[70] + 0x100_0000
            * bytes[71],
        header.bits == bytes[72] + 0x100 * bytes[73] + 0x1_0000 * bytes[74] + 0x100_0000
            * bytes[75],
        header.nonce == bytes[76] + 0x100 * bytes[77] + 0x1_0000 * bytes[78] + 0x100_0000
            * bytes[79],
    ensures
        crate::decode::encodes_header(bytes, header),
{
    assert(header.prev_blockhash.bytes@ =~= bytes.subrange(4, 36));
    assert(header.merkle_root.bytes@ =~= bytes.subrange(36, 68));
}

/// Bytes encode the transaction that they are read as, provided that it is written as
/// these bytes where `usize` has 64 bits, and no other.
pub proof fn law_transaction_is_what_bytes_are_read_as(bytes: Seq<u8>, tx: TransactionView)
    ensures
        crate::decode::encodes_transaction(bytes, tx) <==> (
        crate::decode::deserialized_transaction(bytes, usize::BITS) == Ok::<
            _,
            bitcoin::consensus::encode::Error,
        >(tx) && (usize::BITS != 64 || crate::decode::serialized_transaction(tx) == bytes)),
{
}

/// The header and the transaction that bytes are said to encode are encoded by them, and
/// where there is none the reason is that of decoding those bytes.
pub proof fn law_encoded_values_are_encoded(bytes: Seq<u8>)
    ensures
        match crate::decode::encoded_header(bytes) {
            Ok(header) => crate::decode::encodes_header(bytes, header),
            Err(error) => error == crate::decode::header_error(bytes) && forall|
                header: BlockHeader,
            |
                !#[trigger] crate::decode::encodes_header(bytes, header),
        },
        match crate::decode::encoded_transaction(bytes) {
            Ok(tx) => crate::decode::deserialized_transaction(bytes, usize::BITS) == Ok::<
                _,
                bitcoin::consensus::encode::Error,
            >(tx) && (usize::BITS == 64 ==> crate::decode::serialized_transaction(tx) == bytes),
            Err(error) => error == crate::decode::deserialized_transaction(
                bytes,
                usize::BITS,
            )->Err_0 && forall|tx: TransactionView|
                !#[trigger] crate::decode::encodes_transaction(bytes, tx),
        },
{
}

/// The bytes of a number, put together again, are the number.
pub proof fn law_bytes_make_the_number(number: u32)
    ensures
        crate::decode::le_bytes(number as int).len() == 4,
        crate::decode::le_u32(crate::decode::le_bytes(number as int), 0) == number,
{
    let bytes = crate::decode::le_bytes(number as int);
    let n = number as int;
    assert(bytes[0] == n % 0x100);
    assert(bytes[1] == n / 0x100 % 0x100);
    assert(bytes[2] == n / 0x100 / 0x100 % 0x100);
    assert(bytes[3] == n / 0x100 / 0x100 / 0x100 % 0x100);
    let second = n / 0x100;
    let third = second / 0x100;
    let fourth = third / 0x100;
    assert(n == n % 0x100 + 0x100 * second);
    assert(second == second % 0x100 + 0x100 * third);
    assert(third == third % 0x100 + 0x100 * fourth);
    assert(0 <= fourth < 0x100);
}

/// All objects that the shared state speaks of are named by it, and no others.
pub proof fn law_state_names_its_objects(service: ServiceView, object: NodeObject)
    ensures
        crate::objects::service_names(service, object) <==> (object == NodeObject::ThreadMap(
            service.thread_map,
        ) || object == NodeObject::Thread(service.thread_ipc_client) || (
        service.template_client is Some && object == NodeObject::Client(
            service.template_client->0,
        )) || exists|id: u64| #[trigger]
            service.templates.contains_key(id) && object == NodeObject::Template(
                service.templates[id].ipc_client,
            )),
{
    if exists|id: u64| #[trigger]
        service.templates.contains_key(id) && object == NodeObject::Template(
            service.templates[id].ipc_client,
        ) {
        let id = choose|id: u64| #[trigger]
            service.templates.contains_key(id) && object == NodeObject::Template(
                service.templates[id].ipc_client,
            );
        assert(service.templates[id].ipc_client == object->Template_0);
    }
}

/// Every object that the action of a template monitor takes is named by its step.
pub proof fn law_step_names_what_its_action_takes(step: MonitorStepView)
    ensures
        match step.action {
            MonitorActionView::MakeThread { thread_map } => crate::objects::step_names(
                step,
                NodeObject::ThreadMap(thread_map),
            ),
            MonitorActionView::WaitNext { template_client, thread, .. } => {
                &&& crate::objects::step_names(step, NodeObject::Client(template_client))
                &&& crate::objects::step_names(step, NodeObject::Thread(thread))
            },
            MonitorActionView::InterruptWait { template_client } => crate::objects::step_names(
                step,
                NodeObject::Client(template_client),
            ),
            MonitorActionView::FetchTemplate { template_client } => crate::objects::step_names(
                step,
                NodeObject::Client(template_client),
            ),
            MonitorActionView::DestroyClient { client, thread } => {
                &&& crate::objects::step_names(step, NodeObject::Template(client))
                &&& crate::objects::step_names(step, NodeObject::Thread(thread))
            },
            MonitorActionView::Send(message) => match message {
                crate::messages::OutgoingView::NewTemplate { template, .. } =>
                    crate::objects::step_names(step, NodeObject::Template(template.ipc_client)),
                crate::messages::OutgoingView::SetNewPrevHash { template } =>
                    crate::objects::step_names(step, NodeObject::Template(template.ipc_client)),
                crate::messages::OutgoingView::RequestTransactionDataSuccess { template } =>
                    crate::objects::step_names(step, NodeObject::Template(template.ipc_client)),
                crate::messages::OutgoingView::RequestTransactionDataError { .. } => true,
            },
            _ => true,
        },
{
}

/// Every object that a template monitor goes on with is named by its step, the templates
/// that are still to be handed back among them.
pub proof fn law_step_names_what_it_goes_on_with(step: MonitorStepView)
    ensures
        match step.state {
            MonitorStateView::Waiting { thread, template_client } => {
                &&& crate::objects::step_names(step, NodeObject::Thread(thread))
                &&& crate::objects::step_names(step, NodeObject::Client(template_client))
            },
            MonitorStateView::Fetching { thread } => crate::objects::step_names(
                step,
                NodeObject::Thread(thread),
            ),
            MonitorStateView::Destroying { thread, template, remaining } => {
                &&& crate::objects::step_names(step, NodeObject::Thread(thread))
                &&& crate::objects::step_names(step, NodeObject::Template(template.ipc_client))
                &&& forall|i: int|
                    0 <= i < remaining.len() ==> crate::objects::step_names(
                        step,
                        NodeObject::Template((#[trigger] remaining[i]).ipc_client),
                    )
            },
            MonitorStateView::SendingFuture { thread, template } => {
                &&& crate::objects::step_names(step, NodeObject::Thread(thread))
                &&& crate::objects::step_names(step, NodeObject::Template(template.ipc_client))
            },
            MonitorStateView::SendingPrevHash { thread, template } => {
                &&& crate::objects::step_names(step, NodeObject::Thread(thread))
                &&& crate::objects::step_names(step, NodeObject::Template(template.ipc_client))
            },
            MonitorStateView::SendingCurrent { thread, template } => {
                &&& crate::objects::step_names(step, NodeObject::Thread(thread))
                &&& crate::objects::step_names(step, NodeObject::Template(template.ipc_client))
            },
            _ => true,
        },
{
}

/// A step that takes nothing and goes on with nothing names no object, so that a monitor
/// which has ended holds none back.
pub proof fn law_ended_monitor_names_nothing(step: MonitorStepView, object: NodeObject)
    requires
        step.state is Stopped || step.state is Interrupting || step.state is MakingThread
            || step.state is Starting,
        step.action is Stop || step.action is KeepWaiting,
    ensures
        !crate::objects::step_names(step, object),
{
}

} // verus!
