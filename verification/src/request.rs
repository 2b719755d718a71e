//! A fully formed API request: everything the transport needs to send it.
//!
//! The client never hands a request to the transport without the bearer
//! `Authorization` header and the JSON `Content-Type` header; the
//! construction here is the only way a request is built.

use vstd::prelude::*;
use crate::json::JsonValue;
use crate::json::text_of;

verus! {

/// How contracts see a client's connection settings: the base URL of the
/// REST endpoint and the bearer credential its calls carry.
pub trait ApiCredentials {
    spec fn endpoint_view(&self) -> Seq<char>;

    spec fn token_view(&self) -> Seq<char>;
}

/// The HTTP method of a planned request.
#[derive(Debug, Clone, Copy, PartialEq, Eq, Structural)]
pub enum Method {
    Get,
    Post,
    Delete,
}

/// An outbound request: method, fully formed URL, headers, and the JSON
/// document to be serialized as the body.
#[derive(Debug)]
pub struct ApiRequest {
    pub method: Method,
    pub url: String,
    pub headers: Vec<(String, String)>,
    pub body: JsonValue,
}

/// Whether the header list carries `Authorization: Bearer <token>`.
pub open spec fn carries_authorization(headers: Seq<(String, String)>, token: Seq<char>) -> bool {
    exists|i: int|
        0 <= i < headers.len() && (#[trigger] headers[i]).0@ == "Authorization"@ && headers[i].1@
            == "Bearer "@ + token
}

/// Whether the header list carries `Content-Type: application/json`.
pub open spec fn carries_json_content_type(headers: Seq<(String, String)>) -> bool {
    exists|i: int|
        0 <= i < headers.len() && (#[trigger] headers[i]).0@ == "Content-Type"@ && headers[i].1@
            == "application/json"@
}

/// Both headers that every outbound call must carry.
pub open spec fn carries_required_headers(headers: Seq<(String, String)>, token: Seq<char>) -> bool {
    carries_authorization(headers, token) && carries_json_content_type(headers)
}

impl ApiRequest {
    /// Build a request for `token`: its headers are exactly the JSON
    /// `Content-Type` and the bearer `Authorization`, in that order.
    pub fn new(method: Method, url: String, token: &str, body: JsonValue) -> (r: ApiRequest)
        ensures
            r.method == method,
            r.url == url,
            r.body == body,
            r.headers@.len() == 2,
            r.headers@[0].0@ == "Content-Type"@,
            r.headers@[0].1@ == "application/json"@,
            r.headers@[1].0@ == "Authorization"@,
            r.headers@[1].1@ == "Bearer "@ + token@,
            carries_required_headers(r.headers@, token@),
    {
        let mut bearer = String::from_str("Bearer ");
        bearer.append(token);
        let mut headers: Vec<(String, String)> = Vec::new();
        headers.push((String::from_str("Content-Type"), String::from_str("application/json")));
        headers.push((String::from_str("Authorization"), bearer));
        let r = ApiRequest { method, url, headers, body };
        proof {
            assert(r.headers@[0].0@ == "Content-Type"@);
            assert(r.headers@[1].0@ == "Authorization"@);
        }
        r
    }

    /// The serialized body, exactly as it goes on the wire.
    pub fn body_text(&self) -> (t: String)
        ensures
            t@ == text_of(self.body@),
    {
        self.body.to_text()
    }
}

} // verus!
