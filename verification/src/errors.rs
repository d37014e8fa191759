//! The error kinds the library surfaces: an invalid API domain found at
//! client construction, an API-level failure decoded from the response
//! envelope, and an unspecified lower-level failure.

use vstd::prelude::*;
use vstd::string::StringExecFns;

verus! {

#[derive(Debug)]
pub enum Error {
    /// The configured API domain does not parse as an absolute URL with a
    /// host. Found at construction, fatal, non-retryable.
    InvalidApiDomain { domain: String },
    /// The API answered with the failure side of the response envelope.
    ApiRequestFailed { code: u64, message: String, message_detail: Option<String> },
    /// Any lower-level failure, wrapped uniformly: a malformed response
    /// body, a transport error reported by the caller, and the like.
    Unspecified { message: String },
}

impl Error {
    /// A short description of the error, usable in messages.
    pub fn describe(&self) -> (r: String)
        ensures
            match self {
                Error::InvalidApiDomain { domain } => r@ == "invalid API domain: "@ + domain@,
                Error::ApiRequestFailed { code, message, message_detail } => r@ == message@,
                Error::Unspecified { message } => r@ == message@,
            },
    {
        match self {
            Error::InvalidApiDomain { domain } => "invalid API domain: ".to_owned().concat(
                domain.as_str(),
            ),
            Error::ApiRequestFailed { code: _, message, message_detail: _ } => message.clone(),
            Error::Unspecified { message } => message.clone(),
        }
    }
}

} // verus!
