//! Errors of service plumbing.

use vstd::prelude::*;

verus! {

#[verifier::external_type_specification]
#[verifier::external_body]
pub struct ExConfigError(config::ConfigError);

#[verifier::external_type_specification]
#[verifier::external_body]
pub struct ExInvalidUri(tonic::codegen::http::uri::InvalidUri);

#[verifier::external_type_specification]
#[verifier::external_body]
pub struct ExTransportError(tonic::transport::Error);

/// The errors of service plumbing.
#[derive(Debug)]
pub enum ServiceError {
    ConfigError(config::ConfigError),
    InvalidUriError(tonic::codegen::http::uri::InvalidUri),
    /// No client serves the key.
    MissingClient(String),
    TonicTransportError(tonic::transport::Error),
    /// The text of an address that does not parse.
    AddrParseError(String),
}

} // verus!
