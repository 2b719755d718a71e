//! The configuration a client is constructed from.

use vstd::prelude::*;

verus! {

/// Connection settings for the remote wallet service: the base URL of the
/// REST endpoint, the bearer credential, and an optional path to a
/// PEM-encoded certificate to pin as an additional TLS trust root.
///
/// Constructed once by the caller and never mutated by the client.
#[derive(Debug, Clone)]
pub struct Config {
    pub endpoint: String,
    pub token: String,
    pub bitgo_cert_path: Option<String>,
}

} // verus!
