//! The trusted boundary to reqwest's TLS configuration types.
//!
//! Everything here is opaque to the verifier: the declarations let the
//! certificate and client-builder values flow through verified code, and the
//! wrappers make the calls whose results those values are.

use vstd::prelude::*;

verus! {

#[verifier::external_type_specification]
#[verifier::external_body]
pub struct ExCertificate(reqwest::Certificate);

#[verifier::external_type_specification]
#[verifier::external_body]
pub struct ExClientBuilder(reqwest::ClientBuilder);

/// Relies on `reqwest::Certificate::from_pem`: reads one PEM-encoded
/// certificate from the bytes, or describes the failure. Depending on
/// reqwest's TLS backend the parse may be deferred to client construction,
/// so nothing is assumed about when invalid bytes are rejected.
#[verifier::external_body]
pub(crate) fn certificate_from_pem(pem: &[u8]) -> (r: Result<reqwest::Certificate, String>) {
    reqwest::Certificate::from_pem(pem).map_err(|e| format!("{}", e))
}

/// Relies on `reqwest::ClientBuilder::new`: a client configuration with
/// default trust roots, carrying no certificate of ours yet.
pub assume_specification[ reqwest::ClientBuilder::new ]() -> (b: reqwest::ClientBuilder)
;

/// Relies on `reqwest::ClientBuilder::add_root_certificate`: the returned
/// configuration trusts `cert` as an additional root.
pub assume_specification[ reqwest::ClientBuilder::add_root_certificate ](
    b: reqwest::ClientBuilder,
    cert: reqwest::Certificate,
) -> (r: reqwest::ClientBuilder)
;

} // verus!
