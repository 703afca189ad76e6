use bitcoin::block::ValidationError;
use bitcoin::consensus::encode::Error as EncodeError;
use bitcoin_core_sv2::error::{BitcoinCoreSv2Error, TemplateDataError};

#[test]
fn messages_name_the_error_inside() {
    assert_eq!(
        TemplateDataError::InvalidCoinbaseTx(EncodeError::ParseFailed("no")).message(),
        "Invalid coinbase transaction: parse failed: no"
    );
    assert_eq!(
        TemplateDataError::InvalidSolution(ValidationError::BadTarget).message(),
        "Invalid solution: block target incorrect"
    );
    assert_eq!(
        TemplateDataError::InvalidSolution(ValidationError::BadProofOfWork).message(),
        "Invalid solution: block target correct but not attained"
    );
    assert_eq!(
        TemplateDataError::CapnpError(capnp::Error::failed("gone".to_string())).message(),
        "Cap'n Proto error: Failed: gone"
    );
}

#[test]
fn messages_without_an_error_inside() {
    assert_eq!(TemplateDataError::InvalidMerkleRoot.message(), "Invalid merkle root");
    assert_eq!(
        TemplateDataError::FailedIpcSubmitSolution.message(),
        "Failed to submit solution via IPC"
    );
}

#[test]
fn messages_with_a_given_detail() {
    let error = TemplateDataError::CapnpError(capnp::Error::failed("x".to_string()));
    assert_eq!(error.message_with("y"), "Cap'n Proto error: y");
    assert_eq!(TemplateDataError::InvalidMerkleRoot.message_with("y"), "Invalid merkle root");
    assert_eq!(
        TemplateDataError::FailedIpcSubmitSolution.message_with("y"),
        "Failed to submit solution via IPC"
    );
}

#[test]
fn outside_errors_become_errors_of_the_service() {
    let error: BitcoinCoreSv2Error = capnp::Error::failed("a".to_string()).into();
    assert!(matches!(error, BitcoinCoreSv2Error::CapnpError(e) if e.extra == "a"));
    let error: BitcoinCoreSv2Error = EncodeError::NonMinimalVarInt.into();
    assert!(matches!(
        error,
        BitcoinCoreSv2Error::InvalidTemplateHeader(EncodeError::NonMinimalVarInt)
    ));
}

#[test]
fn outside_errors_become_errors_of_a_template() {
    let error: TemplateDataError = capnp::Error::failed("b".to_string()).into();
    assert!(matches!(error, TemplateDataError::CapnpError(e) if e.extra == "b"));
    let error: TemplateDataError = EncodeError::NonMinimalVarInt.into();
    assert!(matches!(error, TemplateDataError::InvalidCoinbaseTx(EncodeError::NonMinimalVarInt)));
}

#[test]
fn socket_error_keeps_the_path() {
    let path = std::path::Path::new("/tmp/node.sock");
    let error = BitcoinCoreSv2Error::CannotConnectToUnixSocket(path.into());
    assert!(
        matches!(error, BitcoinCoreSv2Error::CannotConnectToUnixSocket(kept) if &*kept == path)
    );
}
