//! The messages of the template distribution protocol, as far as decisions read them.
use crate::types::{BlockHash, Capability};
use vstd::prelude::*;

verus! {

/// The error code for a template that an earlier chain tip left behind.
pub open spec fn stale_code() -> Seq<u8> {
    vstd::utf8::encode_utf8("stale-template-id"@)
}

/// The error code for a template that is not known.
pub open spec fn not_found_code() -> Seq<u8> {
    vstd::utf8::encode_utf8("template-id-not-found"@)
}

/// A template as the service keeps it: its number, the block it builds on and the
/// node's object that stands for it.
#[derive(Clone, Copy, Debug)]
pub struct StoredTemplate {
    pub template_id: u64,
    pub prev_hash: BlockHash,
    pub ipc_client: Capability,
}

/// How much room a peer wants left in the coinbase transaction.
#[derive(Clone, Copy, Debug, PartialEq, Eq, Structural)]
pub struct CoinbaseOutputConstraints {
    pub coinbase_output_max_additional_size: u32,
    pub coinbase_output_max_additional_sigops: u16,
}

/// A peer asks for the transactions of a template.
#[derive(Clone, Copy, Debug, PartialEq, Eq, Structural)]
pub struct RequestTransactionData {
    pub template_id: u64,
}

/// The answer to a [`RequestTransactionData`] that cannot be met. The error code is
/// the text in the bytes that go on the wire.
#[derive(Debug)]
pub struct RequestTransactionDataError {
    pub template_id: u64,
    pub error_code: Vec<u8>,
}

/// A peer has found a block.
#[derive(Debug)]
pub struct SubmitSolution {
    pub template_id: u64,
    pub version: u32,
    pub header_timestamp: u32,
    pub header_nonce: u32,
    pub coinbase_tx: Vec<u8>,
}

/// A message that came in. Those that only a template provider sends carry nothing
/// that is read here.
#[derive(Debug)]
pub enum IncomingMessage {
    CoinbaseOutputConstraints(CoinbaseOutputConstraints),
    NewTemplate,
    RequestTransactionData(RequestTransactionData),
    RequestTransactionDataError,
    RequestTransactionDataSuccess,
    SetNewPrevHash,
    SubmitSolution(SubmitSolution),
}

/// A message to send. All but the refusal are made out of the template they name.
#[derive(Debug)]
pub enum OutgoingMessage {
    NewTemplate { template: StoredTemplate, future_template: bool },
    SetNewPrevHash { template: StoredTemplate },
    RequestTransactionDataSuccess { template: StoredTemplate },
    RequestTransactionDataError(RequestTransactionDataError),
}

/// What an [`OutgoingMessage`] says.
#[verifier::ext_equal]
pub enum OutgoingView {
    NewTemplate { template: StoredTemplate, future_template: bool },
    SetNewPrevHash { template: StoredTemplate },
    RequestTransactionDataSuccess { template: StoredTemplate },
    RequestTransactionDataError { template_id: u64, error_code: Seq<u8> },
}

impl View for OutgoingMessage {
    type V = OutgoingView;

    open spec fn view(&self) -> OutgoingView {
        match self {
            OutgoingMessage::NewTemplate { template, future_template } => {
                OutgoingView::NewTemplate {
                    template: *template,
                    future_template: *future_template,
                }
            },
            OutgoingMessage::SetNewPrevHash { template } => OutgoingView::SetNewPrevHash {
                template: *template,
            },
            OutgoingMessage::RequestTransactionDataSuccess { template } => {
                OutgoingView::RequestTransactionDataSuccess { template: *template }
            },
            OutgoingMessage::RequestTransactionDataError(error) => {
                OutgoingView::RequestTransactionDataError {
                    template_id: error.template_id,
                    error_code: error.error_code@,
                }
            },
        }
    }
}

/// Calls `TryFrom<String>` of `stratum_core::binary_sv2::Str0255`.
///
/// Believed of it: it takes a text whose UTF-8 encoding has at most 255 bytes, and no
/// other, and then holds just that encoding.
#[verifier::external_body]
fn str0255(text: String) -> (res: Option<Vec<u8>>)
    ensures
        res is Some <==> vstd::utf8::encode_utf8(text@).len() <= 255,
        res matches Some(bytes) ==> bytes@ == vstd::utf8::encode_utf8(text@),
{
    match stratum_core::binary_sv2::Str0255::try_from(text) {
        Ok(wire) => Some(wire.to_vec()),
        Err(_) => None,
    }
}

/// A text of at most 255 plain ASCII characters fits an error code.
proof fn lemma_ascii_fits(text: &str)
    requires
        vstd::string::is_ascii(text),
        text@.len() <= 255,
    ensures
        vstd::utf8::encode_utf8(text@).len() <= 255,
{
    vstd::string::is_ascii_spec_bytes(text);
}

/// The refusal for a template that an earlier chain tip left behind.
pub fn stale_template(template_id: u64) -> (res: RequestTransactionDataError)
    ensures
        res.template_id == template_id,
        res.error_code@ == stale_code(),
{
    proof {
        reveal_strlit("stale-template-id");
        lemma_ascii_fits("stale-template-id");
    }
    let code = str0255("stale-template-id".to_owned());
    RequestTransactionDataError { template_id, error_code: code.unwrap() }
}

/// The refusal for a template that is not known.
pub fn template_not_found(template_id: u64) -> (res: RequestTransactionDataError)
    ensures
        res.template_id == template_id,
        res.error_code@ == not_found_code(),
{
    proof {
        reveal_strlit("template-id-not-found");
        lemma_ascii_fits("template-id-not-found");
    }
    let code = str0255("template-id-not-found".to_owned());
    RequestTransactionDataError { template_id, error_code: code.unwrap() }
}

} // verus!
