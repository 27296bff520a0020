//! The bearer token that every outbound call carries as `authorization` metadata.

use vstd::prelude::*;
use vstd::string::StringSliceAdditionalSpecFns;
use http::header::{HeaderValue, InvalidHeaderValue};

verus! {

#[verifier::external_type_specification]
#[verifier::external_body]
pub struct ExHeaderValue(HeaderValue);

#[verifier::external_type_specification]
#[verifier::external_body]
pub struct ExInvalidHeaderValue(InvalidHeaderValue);

/// A byte that may stand in an ASCII metadata value: a tab, or any byte from
/// the space up but DEL.
pub open spec fn is_metadata_byte(b: u8) -> bool {
    (b >= 32 && b != 127) || b == 9
}

/// Every byte of `bytes` may stand in an ASCII metadata value.
pub open spec fn is_metadata_text(bytes: Seq<u8>) -> bool {
    forall|i: int| 0 <= i < bytes.len() ==> is_metadata_byte(#[trigger] bytes[i])
}

/// Relies on `http::HeaderValue::from_str`, the parser behind gRPC's ASCII
/// metadata values: it fails exactly when a byte of the text is neither a tab
/// nor at least a space and other than DEL.
pub assume_specification[ HeaderValue::from_str ](src: &str) -> (r: Result<HeaderValue, InvalidHeaderValue>)
    ensures
        r is Ok <==> is_metadata_text(src.spec_bytes()),
;

/// Why a token cannot be sent.
#[derive(Clone, Copy, Debug, PartialEq, Eq, Structural)]
pub enum TokenError {
    /// The token holds a byte that metadata cannot carry.
    InvalidToken,
}

impl TokenError {
    /// A sentence that describes the error.
    pub fn message(&self) -> (r: String) {
        match self {
            TokenError::InvalidToken => "parse token failed".to_owned(),
        }
    }
}

/// The `authorization` metadata value for `token`: the token as it is, when
/// every one of its bytes may stand in ASCII metadata.
pub fn authorization_value(token: &str) -> (r: Result<HeaderValue, TokenError>)
    ensures
        r is Ok <==> is_metadata_text(token.spec_bytes()),
        r is Err ==> r->Err_0 == TokenError::InvalidToken,
{
    match HeaderValue::from_str(token) {
        Ok(v) => Ok(v),
        Err(_) => Err(TokenError::InvalidToken),
    }
}

} // verus!
