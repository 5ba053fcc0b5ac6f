//! The metadata that every outbound request carries: a bearer token and the
//! routing parameters that the service uses for request affinity.
use vstd::prelude::*;

use tonic::metadata::errors::InvalidMetadataValue;
use tonic::metadata::AsciiMetadataValue;

use crate::error::StorageError;

verus! {

/// A character that may stand in a header value: a tab, or any character from
/// the space upwards but DEL. Every byte of a character beyond ASCII is at
/// least 128, so such characters are accepted too.
pub open spec fn is_header_char(c: char) -> bool {
    c == '\t' || (c as u32 >= 32 && c as u32 != 127)
}

/// `s` may stand in a header value.
pub open spec fn is_header_text(s: Seq<char>) -> bool {
    forall|i: int| 0 <= i < s.len() ==> is_header_char(#[trigger] s[i])
}

/// Relies on tonic's `FromStr` for `MetadataValue<Ascii>`, which hands the
/// string to http's `HeaderValue::from_str`: that accepts it exactly when each
/// byte is a tab, or at least 32 and not 127. The value made is dropped: the
/// caller keeps the text.
#[verifier::external_body]
fn check_ascii_metadata_value(s: &str) -> (r: Result<(), InvalidMetadataValue>)
    ensures
        r is Ok <==> is_header_text(s@),
{
    s.parse::<AsciiMetadataValue>().map(|_| ())
}

/// The value of the `authorization` header for the access token `token`.
pub open spec fn bearer_text(token: Seq<char>) -> Seq<char> {
    "Bearer "@ + token
}

/// The headers of one outbound request, each checked to be a valid header
/// value.
pub struct RequestMetadata {
    /// The value of the `authorization` header.
    pub authorization: String,
    /// The value of the `x-goog-request-params` header.
    pub request_params: String,
}

impl RequestMetadata {
    /// The headers of a request authorized by the access token `token` and
    /// routed by `params`. Fails with a metadata encoding error when either
    /// value cannot stand in a header.
    pub fn new(token: &str, params: &str) -> (r: Result<RequestMetadata, StorageError>)
        ensures
            r is Ok <==> is_header_text(bearer_text(token@)) && is_header_text(params@),
            r is Ok ==> r->Ok_0.authorization@ == bearer_text(token@) && r->Ok_0.request_params@
                == params@,
            r is Err ==> r->Err_0 is MetadataEncoding,
    {
        let mut bearer = String::from_str("Bearer ");
        bearer.append(token);
        if let Err(e) = check_ascii_metadata_value(bearer.as_str()) {
            return Err(StorageError::MetadataEncoding(e));
        }
        if let Err(e) = check_ascii_metadata_value(params) {
            return Err(StorageError::MetadataEncoding(e));
        }
        Ok(RequestMetadata { authorization: bearer, request_params: String::from_str(params) })
    }
}

} // verus!
