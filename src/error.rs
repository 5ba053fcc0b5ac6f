//! The closed set of failures that the library reports.
use vstd::prelude::*;

verus! {

/// The failure of a connection to the service (tonic's transport error).
#[verifier::external_type_specification]
#[verifier::external_body]
pub struct ExTransportError(tonic::transport::Error);

/// A rejection of a call by the service (tonic's status).
#[verifier::external_type_specification]
#[verifier::external_body]
pub struct ExStatus(tonic::Status);

/// A string that cannot stand in a request header (tonic's metadata error).
#[verifier::external_type_specification]
#[verifier::external_body]
pub struct ExInvalidMetadataValue(tonic::metadata::errors::InvalidMetadataValue);

/// A failure of the token provider (yup_oauth2's error).
#[verifier::external_type_specification]
#[verifier::external_body]
pub struct ExAuthError(yup_oauth2::Error);

/// A failure of a local byte buffer.
#[verifier::external_type_specification]
#[verifier::external_body]
pub struct ExIoError(std::io::Error);

/// A failure of the Arrow decoder on a reconstructed stream.
#[verifier::external_type_specification]
#[verifier::external_body]
pub struct ExArrowError(arrow::error::ArrowError);

/// Encompassing error enum for this crate.
#[derive(Debug)]
pub enum StorageError {
    /// The connection to the service failed.
    Transport(tonic::transport::Error),
    /// The service rejected a call.
    Status(tonic::Status),
    /// A header value could not be encoded.
    MetadataEncoding(tonic::metadata::errors::InvalidMetadataValue),
    /// No access token could be obtained.
    Auth(yup_oauth2::Error),
    /// The service answered with data that this library cannot interpret.
    InvalidResponse(String),
    /// A local byte buffer failed.
    Io(std::io::Error),
    /// The Arrow decoder refused a reconstructed stream.
    Arrow(arrow::error::ArrowError),
}

/// `e` reports an unexpected response, for the reason `reason`.
pub open spec fn is_invalid_response(e: StorageError, reason: Seq<char>) -> bool {
    match e {
        StorageError::InvalidResponse(s) => s@ == reason,
        _ => false,
    }
}

impl StorageError {
    /// An unexpected response, for the reason `s`.
    pub fn invalid(s: &str) -> (r: Self)
        ensures
            is_invalid_response(r, s@),
    {
        StorageError::InvalidResponse(String::from_str(s))
    }
}

} // verus!
