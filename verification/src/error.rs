//! The error taxonomy of the client: a missing field in a response, a
//! transport-level failure, and a failure reported by the remote service.

use vstd::prelude::*;

verus! {

/// A failure surfaced to the caller of the client.
///
/// Every failed call returns exactly one of these; no error is retried or
/// swallowed inside the library, and none leaves the client configuration
/// unusable for later calls.
#[derive(Debug, Clone)]
pub enum Error {
    /// A required field was absent from a parsed response; carries the field
    /// name that was looked up.
    InvalidKey { key: String },
    /// A network, TLS or serialization failure at the HTTP layer; carries the
    /// underlying failure's description.
    ReqwestError { msg: String },
    /// The remote service answered with a non-success status; carries the
    /// message extracted from the response body.
    BitgoError { msg: String },
}

impl Error {
    /// A human-readable description of the error.
    pub fn describe(&self) -> (r: String)
        ensures
            (*self matches Error::InvalidKey { key } ==> r@ == "Invalid key: "@ + key@),
            (*self matches Error::ReqwestError { msg } ==> r@ == "reqwest Error: "@ + msg@),
            (*self matches Error::BitgoError { msg } ==> r@ == "bitgo Error: "@ + msg@),
    {
        match self {
            Error::InvalidKey { key } => {
                let mut r = String::from_str("Invalid key: ");
                r.append(key.as_str());
                r
            },
            Error::ReqwestError { msg } => {
                let mut r = String::from_str("reqwest Error: ");
                r.append(msg.as_str());
                r
            },
            Error::BitgoError { msg } => {
                let mut r = String::from_str("bitgo Error: ");
                r.append(msg.as_str());
                r
            },
        }
    }
}

} // verus!
