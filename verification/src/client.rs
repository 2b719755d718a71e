//! The TLS-aware API client, and the classification of HTTP responses.

use vstd::prelude::*;
use crate::config::Config;
use crate::error::Error;
use crate::json::JsonValue;
use crate::json::JsonView;
use crate::json::lookup;
use crate::json::text_of;
use crate::request::ApiCredentials;
use crate::request::ApiRequest;
use crate::request::Method;
use crate::request::carries_required_headers;

verus! {

/// A client configuration for the remote wallet service: endpoint, bearer
/// credential, and an optional path to a PEM certificate to pin as an
/// additional TLS trust root. The certificate file is read lazily by the
/// transport at call time, never at construction.
#[derive(Debug, Clone)]
pub struct BitGoClient {
    pub endpoint: String,
    pub token: String,
    pub bitgo_cert_path: Option<String>,
}

/// The range of HTTP statuses a call treats as success.
pub open spec fn is_success_status(status: u16) -> bool {
    200 <= status < 300
}

/// The message a failed call carries: the `message` field of the response
/// body when it is a string, the JSON text of that field when it is not,
/// and the fixed placeholder when the body has no such field.
pub open spec fn error_message_of(body: JsonView) -> Seq<char> {
    match lookup(body, "message"@) {
        Some(JsonView::Str(s)) => s,
        Some(v) => text_of(v),
        None => "Unknown Error"@,
    }
}

/// Turn an HTTP response, already parsed, into the caller's result: the body
/// verbatim on a success status, and a remote-service error carrying the
/// extracted message on any other status.
pub fn classify_response(status: u16, body: JsonValue) -> (r: Result<JsonValue, Error>)
    ensures
        is_success_status(status) ==> (r matches Ok(v) && v == body),
        !is_success_status(status) ==> (r matches Err(Error::BitgoError { msg }) && msg@
            == error_message_of(body@)),
{
    if 200 <= status && status < 300 {
        Ok(body)
    } else {
        let msg: String = match body.get("message") {
            Some(found) => match found {
                JsonValue::Str(s) => s.clone(),
                other => other.to_text(),
            },
            None => String::from_str("Unknown Error"),
        };
        Err(Error::BitgoError { msg })
    }
}

impl ApiCredentials for BitGoClient {
    open spec fn endpoint_view(&self) -> Seq<char> {
        self.endpoint@
    }

    open spec fn token_view(&self) -> Seq<char> {
        self.token@
    }
}

impl BitGoClient {
    /// A client for `endpoint` authenticating with `token`, pinning the
    /// certificate at `bitgo_cert_path` when one is given. Never fails;
    /// the certificate file is not touched here.
    pub fn new(endpoint: String, token: String, bitgo_cert_path: Option<String>) -> (r: Result<
        BitGoClient,
        Error,
    >)
        ensures
            r matches Ok(c) && c.endpoint == endpoint && c.token == token && c.bitgo_cert_path
                == bitgo_cert_path,
    {
        Ok(BitGoClient { endpoint, token, bitgo_cert_path })
    }

    /// A client taking its settings from a configuration. Never fails.
    pub fn from_config(config: &Config) -> (r: Result<BitGoClient, Error>)
        ensures
            r matches Ok(c) && c.endpoint@ == config.endpoint@ && c.token@ == config.token@
                && c.bitgo_cert_path == config.bitgo_cert_path,
    {
        let cert_path = match &config.bitgo_cert_path {
            Some(path) => Some(path.clone()),
            None => None,
        };
        BitGoClient::new(config.endpoint.clone(), config.token.clone(), cert_path)
    }

    /// The certificate path a call must pin, exactly when one is configured
    /// and non-empty; with no path, or an empty one, the transport uses the
    /// default trust roots.
    pub fn pinning_path(&self) -> (r: Option<&String>)
        ensures
            (match self.bitgo_cert_path {
                Some(path) => if path@.len() > 0 {
                    r matches Some(q) && q@ == path@
                } else {
                    r is None
                },
                None => r is None,
            }),
    {
        match &self.bitgo_cert_path {
            Some(path) => {
                if path.as_str().is_empty() {
                    None
                } else {
                    Some(path)
                }
            },
            None => None,
        }
    }

    /// Build an HTTP client configuration that trusts the given PEM-encoded
    /// certificate as an additional root. A rejection of the certificate
    /// material surfaces as a transport error, never as a panic and never as
    /// a remote-service error.
    pub fn get_ssl_certificate(pem: &[u8]) -> (r: Result<reqwest::ClientBuilder, Error>)
        ensures
            r matches Err(e) ==> e matches Error::ReqwestError { .. },
    {
        match crate::tls::certificate_from_pem(pem) {
            Ok(cert) => Ok(reqwest::ClientBuilder::new().add_root_certificate(cert)),
            Err(msg) => Err(Error::ReqwestError { msg }),
        }
    }

    /// Plan a `GET` of `request_url` with `params` as the body, carrying the
    /// bearer and content-type headers.
    pub fn get_api(&self, request_url: &str, params: JsonValue) -> (r: ApiRequest)
        ensures
            r.method == Method::Get,
            r.url@ == request_url@,
            r.body == params,
            carries_required_headers(r.headers@, self.token@),
    {
        ApiRequest::new(Method::Get, String::from_str(request_url), self.token.as_str(), params)
    }

    /// Plan a `POST` of `request_url` with `params` as the body, carrying the
    /// bearer and content-type headers.
    pub fn post_api(&self, request_url: &str, params: JsonValue) -> (r: ApiRequest)
        ensures
            r.method == Method::Post,
            r.url@ == request_url@,
            r.body == params,
            carries_required_headers(r.headers@, self.token@),
    {
        ApiRequest::new(Method::Post, String::from_str(request_url), self.token.as_str(), params)
    }

    /// Plan a `DELETE` of `request_url` with `params` as the body, carrying
    /// the bearer and content-type headers.
    pub fn delete_api(&self, request_url: &str, params: JsonValue) -> (r: ApiRequest)
        ensures
            r.method == Method::Delete,
            r.url@ == request_url@,
            r.body == params,
            carries_required_headers(r.headers@, self.token@),
    {
        ApiRequest::new(Method::Delete, String::from_str(request_url), self.token.as_str(), params)
    }
}

} // verus!
