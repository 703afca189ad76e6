//! Types of other crates that the library carries through without looking inside.
use vstd::prelude::*;

verus! {

/// `capnp::Error`: what a failed Cap'n Proto call reports.
#[verifier::external_type_specification]
#[verifier::external_body]
pub struct ExCapnpError(capnp::Error);

/// `bitcoin::consensus::encode::Error`: why bytes are not a consensus encoding.
#[verifier::external_type_specification]
#[verifier::external_body]
pub struct ExEncodeError(bitcoin::consensus::encode::Error);

/// `bitcoin::block::ValidationError`: why a block is not valid.
#[verifier::external_type_specification]
#[verifier::external_body]
pub struct ExValidationError(bitcoin::block::ValidationError);

/// `std::path::Path`: a place in the file system.
#[verifier::external_type_specification]
#[verifier::external_body]
pub struct ExPath(std::path::Path);

/// `std::path::PathBuf`: where the node's socket lies.
#[verifier::external_type_specification]
#[verifier::external_body]
pub struct ExPathBuf(std::path::PathBuf);

/// `std::io::Error`: why a socket could not be opened.
#[verifier::external_type_specification]
#[verifier::external_body]
pub struct ExIoError(std::io::Error);

} // verus!
