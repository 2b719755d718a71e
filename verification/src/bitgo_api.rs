//! The plain API client: endpoint and bearer token, no TLS pinning.

use vstd::prelude::*;
use crate::config::Config;
use crate::error::Error;
use crate::json::JsonValue;
use crate::json::lookup;
use crate::request::ApiCredentials;
use crate::request::ApiRequest;
use crate::request::Method;
use crate::request::carries_required_headers;
use crate::transfer::BitGoTransferAPI;
use crate::wallet::BitGoWallet;
use crate::webhook::BitGoWebhookAPI;

verus! {

/// Everything the wallet, webhook and transfer surfaces offer, as one bound.
pub trait BitGo: BitGoWebhookAPI + BitGoWallet + BitGoTransferAPI {

}

/// A client configuration for the remote wallet service: the base URL of
/// the REST endpoint and the bearer credential every call carries.
///
/// Immutable after construction; planning a request never changes it, so a
/// failed call leaves the client valid for further calls.
#[derive(Debug, Clone)]
pub struct BitGoAPI {
    pub endpoint: String,
    pub token: String,
}

/// Return the value of field `name` of a parsed response, or fail with a
/// missing-key error naming the field. This is how a caller asserts a
/// response shape without a full schema.
pub fn value_or_error(value: JsonValue, name: &str) -> (r: Result<JsonValue, Error>)
    ensures
        (match lookup(value@, name@) {
            Some(found) => r matches Ok(v) && v@ == found,
            None => r matches Err(Error::InvalidKey { key }) && key@ == name@,
        }),
{
    match value.get(name) {
        Some(found) => Ok(found.deep_copy()),
        None => Err(Error::InvalidKey { key: String::from_str(name) }),
    }
}

impl ApiCredentials for BitGoAPI {
    open spec fn endpoint_view(&self) -> Seq<char> {
        self.endpoint@
    }

    open spec fn token_view(&self) -> Seq<char> {
        self.token@
    }
}

impl BitGoAPI {
    /// A client for `endpoint` authenticating with `token`. Never fails.
    pub fn new(endpoint: String, token: String) -> (r: Result<BitGoAPI, Error>)
        ensures
            r matches Ok(c) && c.endpoint == endpoint && c.token == token,
    {
        Ok(BitGoAPI { endpoint, token })
    }

    /// A client taking endpoint and token from a configuration. Never fails.
    pub fn from_config(config: &Config) -> (r: Result<BitGoAPI, Error>)
        ensures
            r matches Ok(c) && c.endpoint@ == config.endpoint@ && c.token@ == config.token@,
    {
        BitGoAPI::new(config.endpoint.clone(), config.token.clone())
    }

    /// Plan a `GET` of `request_url` with `params` as the body, carrying the
    /// bearer and content-type headers.
    pub fn get_api(&self, request_url: &str, params: JsonValue) -> (r: ApiRequest)
        ensures
            r.method == Method::Get,
            r.url@ == request_url@,
            r.body == params,
            carries_required_headers(r.headers@, self.token@),
    {
        ApiRequest::new(Method::Get, String::from_str(request_url), self.token.as_str(), params)
    }

    /// Plan a `POST` of `request_url` with `params` as the body, carrying the
    /// bearer and content-type headers.
    pub fn post_api(&self, request_url: &str, params: JsonValue) -> (r: ApiRequest)
        ensures
            r.method == Method::Post,
            r.url@ == request_url@,
            r.body == params,
            carries_required_headers(r.headers@, self.token@),
    {
        ApiRequest::new(Method::Post, String::from_str(request_url), self.token.as_str(), params)
    }

    /// Plan a `DELETE` of `request_url` with `params` as the body, carrying
    /// the bearer and content-type headers.
    pub fn delete_api(&self, request_url: &str, params: JsonValue) -> (r: ApiRequest)
        ensures
            r.method == Method::Delete,
            r.url@ == request_url@,
            r.body == params,
            carries_required_headers(r.headers@, self.token@),
    {
        ApiRequest::new(Method::Delete, String::from_str(request_url), self.token.as_str(), params)
    }
}

} // verus!
