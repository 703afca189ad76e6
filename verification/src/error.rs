//! What can go wrong.
use bitcoin::block::ValidationError;
use bitcoin::consensus::encode::Error as ConsensusEncodeError;
use vstd::prelude::*;

verus! {

/// Error type for [`crate::service::BitcoinCoreSv2`].
#[derive(Debug)]
pub enum BitcoinCoreSv2Error {
    CapnpError(capnp::Error),
    CannotConnectToUnixSocket(Box<std::path::Path>),
    InvalidTemplateHeader(ConsensusEncodeError),
    InvalidTemplateHeaderLength,
    FailedToSerializeCoinbasePrefix,
    FailedToSerializeCoinbaseOutputs,
    TemplateNotFound,
    TemplateIpcClientNotFound,
    FailedToSendNewTemplateMessage,
    FailedToSendSetNewPrevHashMessage,
    FailedToSendRequestTransactionDataResponseMessage,
    FailedToRecvTemplateDistributionMessage,
    FailedToSendTemplateDistributionMessage,
    FailedToSubmitSolution,
}

impl From<capnp::Error> for BitcoinCoreSv2Error {
    fn from(error: capnp::Error) -> (res: Self) {
        BitcoinCoreSv2Error::CapnpError(error)
    }
}

impl vstd::std_specs::convert::FromSpecImpl<capnp::Error> for BitcoinCoreSv2Error {
    open spec fn obeys_from_spec() -> bool {
        true
    }

    open spec fn from_spec(error: capnp::Error) -> Self {
        BitcoinCoreSv2Error::CapnpError(error)
    }
}

impl From<ConsensusEncodeError> for BitcoinCoreSv2Error {
    fn from(error: ConsensusEncodeError) -> (res: Self) {
        BitcoinCoreSv2Error::InvalidTemplateHeader(error)
    }
}

impl vstd::std_specs::convert::FromSpecImpl<ConsensusEncodeError> for BitcoinCoreSv2Error {
    open spec fn obeys_from_spec() -> bool {
        true
    }

    open spec fn from_spec(error: ConsensusEncodeError) -> Self {
        BitcoinCoreSv2Error::InvalidTemplateHeader(error)
    }
}

/// What a template can fail at.
#[derive(Debug)]
pub enum TemplateDataError {
    InvalidCoinbaseTx(ConsensusEncodeError),
    InvalidSolution(ValidationError),
    InvalidMerkleRoot,
    CapnpError(capnp::Error),
    FailedIpcSubmitSolution,
}

impl From<ConsensusEncodeError> for TemplateDataError {
    fn from(error: ConsensusEncodeError) -> (res: Self) {
        TemplateDataError::InvalidCoinbaseTx(error)
    }
}

impl vstd::std_specs::convert::FromSpecImpl<ConsensusEncodeError> for TemplateDataError {
    open spec fn obeys_from_spec() -> bool {
        true
    }

    open spec fn from_spec(error: ConsensusEncodeError) -> Self {
        TemplateDataError::InvalidCoinbaseTx(error)
    }
}

impl From<capnp::Error> for TemplateDataError {
    fn from(error: capnp::Error) -> (res: Self) {
        TemplateDataError::CapnpError(error)
    }
}

impl vstd::std_specs::convert::FromSpecImpl<capnp::Error> for TemplateDataError {
    open spec fn obeys_from_spec() -> bool {
        true
    }

    open spec fn from_spec(error: capnp::Error) -> Self {
        TemplateDataError::CapnpError(error)
    }
}

impl TemplateDataError {
    /// The message for this error when the text of the error inside it, if it has
    /// one, is `detail`.
    pub open spec fn message_text(self, detail: Seq<char>) -> Seq<char> {
        match self {
            TemplateDataError::InvalidCoinbaseTx(_) => "Invalid coinbase transaction: "@ + detail,
            TemplateDataError::InvalidSolution(_) => "Invalid solution: "@ + detail,
            TemplateDataError::InvalidMerkleRoot => "Invalid merkle root"@,
            TemplateDataError::CapnpError(_) => "Cap'n Proto error: "@ + detail,
            TemplateDataError::FailedIpcSubmitSolution => "Failed to submit solution via IPC"@,
        }
    }

    /// `text` is how the error inside this one displays; an error that holds no
    /// other has the empty text there.
    pub open spec fn displays_inside(self, text: String) -> bool {
        match self {
            TemplateDataError::InvalidCoinbaseTx(e) => vstd::string::to_string_from_display_ensures(&e, text),
            TemplateDataError::InvalidSolution(e) => vstd::string::to_string_from_display_ensures(&e, text),
            TemplateDataError::CapnpError(e) => vstd::string::to_string_from_display_ensures(&e, text),
            _ => text@ == Seq::<char>::empty(),
        }
    }

    /// The message for this error, with `detail` for the text of the error inside it.
    pub fn message_with(&self, detail: &str) -> (res: String)
        ensures
            res@ == self.message_text(detail@),
    {
        match self {
            TemplateDataError::InvalidCoinbaseTx(_) => String::from_str(
                "Invalid coinbase transaction: ",
            ).concat(detail),
            TemplateDataError::InvalidSolution(_) => String::from_str("Invalid solution: ").concat(
                detail,
            ),
            TemplateDataError::InvalidMerkleRoot => String::from_str("Invalid merkle root"),
            TemplateDataError::CapnpError(_) => String::from_str("Cap'n Proto error: ").concat(
                detail,
            ),
            TemplateDataError::FailedIpcSubmitSolution => String::from_str(
                "Failed to submit solution via IPC",
            ),
        }
    }

    /// The message for this error: what kind it is, then how the error inside it displays.
    pub fn message(&self) -> (res: String)
        ensures
            exists|detail: String| #[trigger]
                self.displays_inside(detail) && res@ == self.message_text(detail@),
    {
        let detail = match self {
            TemplateDataError::InvalidCoinbaseTx(e) => e.to_string(),
            TemplateDataError::InvalidSolution(e) => e.to_string(),
            TemplateDataError::InvalidMerkleRoot => String::new(),
            TemplateDataError::CapnpError(e) => e.to_string(),
            TemplateDataError::FailedIpcSubmitSolution => String::new(),
        };
        assert(self.displays_inside(detail));
        self.message_with(detail.as_str())
    }
}

/// What can fail between a socket and the data of a template.
#[derive(Debug)]
pub enum IpcError {
    /// The socket could not be opened.
    Connect(std::io::Error),
    /// A call to the node failed.
    Capnp(capnp::Error),
    /// The node's bytes do not encode what was asked for.
    Decode(ConsensusEncodeError),
}

/// `error` says that a message holds no capability where one was looked for.
pub uninterp spec fn null_capability(error: capnp::Error) -> bool;

/// Reads the kind of a `capnp::Error` and compares it with
/// `capnp::ErrorKind::MessageContainsNullCapabilityPointer`.
///
/// Believed of it: the answer depends on the error alone.
#[verifier::external_body]
pub(crate) fn is_null_capability(error: &capnp::Error) -> (res: bool)
    ensures
        res == null_capability(*error),
{
    matches!(error.kind, capnp::ErrorKind::MessageContainsNullCapabilityPointer)
}

} // verus!
