//! Webhook operations: registering, listing and removing wallet-level and
//! block-level callback URLs.

use vstd::prelude::*;
use crate::client::BitGoClient;
use crate::json::JsonValue;
use crate::json::JsonView;
use crate::json::entry_views_of;
use crate::json::lemma_entry_views_of;
use crate::request::ApiCredentials;
use crate::request::ApiRequest;
use crate::request::Method;
use crate::request::carries_required_headers;

verus! {

/// The webhook surface of the API: each method is a pure function of the
/// client settings and its arguments to the one request that operation
/// sends. No call order matters and no state is retained.
pub trait BitGoWebhookAPI: ApiCredentials {
    /// Plan the call registering a wallet webhook: a `POST` to
    /// `{endpoint}/api/v2/{identifier}/wallet/{wallet_id}/webhooks` whose
    /// body describes the callback.
    fn add_wallet_webhook(
        &self,
        wallet_id: &str,
        identifier: &str,
        webhook_label: &str,
        webhook_type: &str,
        webhook_url: &str,
        num_confirmation: i32,
        all_token: bool,
        listen_failure_states: bool,
    ) -> (r: ApiRequest)
        ensures
            r.method == Method::Post,
            r.url@ == self.endpoint_view() + "/api/v2/"@ + identifier@ + "/wallet/"@ + wallet_id@
                + "/webhooks"@,
            r.body@ == JsonView::Obj(
                seq![
                    ("type"@, JsonView::Str(webhook_type@)),
                    ("url"@, JsonView::Str(webhook_url@)),
                    ("label"@, JsonView::Str(webhook_label@)),
                    ("numConfirmations"@, JsonView::Int(num_confirmation as int)),
                    ("allToken"@, JsonView::Bool(all_token)),
                    ("listenToFailureStates"@, JsonView::Bool(listen_failure_states)),
                ],
            ),
            carries_required_headers(r.headers@, self.token_view()),
    ;

    /// Plan the call registering a block webhook: a `POST` to
    /// `{endpoint}/api/v2/{identifier}/webhooks` whose body describes the
    /// callback.
    fn add_block_webhook(
        &self,
        identifier: &str,
        webhook_type: &str,
        webhook_label: &str,
        webhook_url: &str,
        num_confirmation: i32,
    ) -> (r: ApiRequest)
        ensures
            r.method == Method::Post,
            r.url@ == self.endpoint_view() + "/api/v2/"@ + identifier@ + "/webhooks"@,
            r.body@ == JsonView::Obj(
                seq![
                    ("type"@, JsonView::Str(webhook_type@)),
                    ("url"@, JsonView::Str(webhook_url@)),
                    ("label"@, JsonView::Str(webhook_label@)),
                    ("numConfirmations"@, JsonView::Int(num_confirmation as int)),
                ],
            ),
            carries_required_headers(r.headers@, self.token_view()),
    ;

    /// Plan the call listing a wallet's webhooks: a `GET` of
    /// `{endpoint}/api/v2/{identifier}/wallet/{wallet_id}/webhooks`.
    fn list_wallet_webhook(&self, wallet_id: &str, identifier: &str) -> (r: ApiRequest)
        ensures
            r.method == Method::Get,
            r.url@ == self.endpoint_view() + "/api/v2/"@ + identifier@ + "/wallet/"@ + wallet_id@
                + "/webhooks"@,
            r.body@ == JsonView::Obj(Seq::empty()),
            carries_required_headers(r.headers@, self.token_view()),
    ;

    /// Plan the call listing block webhooks: a `GET` of
    /// `{endpoint}/api/v2/{identifier}/webhooks`.
    fn list_block_webhook(&self, identifier: &str) -> (r: ApiRequest)
        ensures
            r.method == Method::Get,
            r.url@ == self.endpoint_view() + "/api/v2/"@ + identifier@ + "/webhooks"@,
            r.body@ == JsonView::Obj(Seq::empty()),
            carries_required_headers(r.headers@, self.token_view()),
    ;

    /// Plan the call removing a wallet webhook: a `DELETE` of
    /// `{endpoint}/api/v2/{identifier}/wallet/{wallet_id}/webhooks` whose
    /// body identifies the callback by type, URL and id.
    fn remove_wallet_webhook(
        &self,
        wallet_id: &str,
        identifier: &str,
        webhook_type: &str,
        webhook_url: &str,
        webhook_id: &str,
    ) -> (r: ApiRequest)
        ensures
            r.method == Method::Delete,
            r.url@ == self.endpoint_view() + "/api/v2/"@ + identifier@ + "/wallet/"@ + wallet_id@
                + "/webhooks"@,
            r.body@ == JsonView::Obj(
                seq![
                    ("type"@, JsonView::Str(webhook_type@)),
                    ("url"@, JsonView::Str(webhook_url@)),
                    ("id"@, JsonView::Str(webhook_id@)),
                ],
            ),
            carries_required_headers(r.headers@, self.token_view()),
    ;

    /// Plan the call removing a block webhook: a `DELETE` of
    /// `{endpoint}/api/v2/{identifier}/webhooks` whose body identifies the
    /// callback by type, URL and id.
    fn remove_block_webhook(
        &self,
        identifier: &str,
        webhook_type: &str,
        webhook_url: &str,
        webhook_id: &str,
    ) -> (r: ApiRequest)
        ensures
            r.method == Method::Delete,
            r.url@ == self.endpoint_view() + "/api/v2/"@ + identifier@ + "/webhooks"@,
            r.body@ == JsonView::Obj(
                seq![
                    ("type"@, JsonView::Str(webhook_type@)),
                    ("url"@, JsonView::Str(webhook_url@)),
                    ("id"@, JsonView::Str(webhook_id@)),
                ],
            ),
            carries_required_headers(r.headers@, self.token_view()),
    ;
}

impl BitGoWebhookAPI for BitGoClient {
    fn add_wallet_webhook(
        &self,
        wallet_id: &str,
        identifier: &str,
        webhook_label: &str,
        webhook_type: &str,
        webhook_url: &str,
        num_confirmation: i32,
        all_token: bool,
        listen_failure_states: bool,
    ) -> (r: ApiRequest) {
        let mut request_url = self.endpoint.clone();
        request_url.append("/api/v2/");
        request_url.append(identifier);
        request_url.append("/wallet/");
        request_url.append(wallet_id);
        request_url.append("/webhooks");

        let mut entries: Vec<(String, JsonValue)> = Vec::new();
        entries.push((String::from_str("type"), JsonValue::Str(String::from_str(webhook_type))));
        entries.push((String::from_str("url"), JsonValue::Str(String::from_str(webhook_url))));
        entries.push((String::from_str("label"), JsonValue::Str(String::from_str(webhook_label))));
        entries.push(
            (String::from_str("numConfirmations"), JsonValue::Int(num_confirmation as i64)),
        );
        entries.push((String::from_str("allToken"), JsonValue::Bool(all_token)));
        entries.push(
            (String::from_str("listenToFailureStates"), JsonValue::Bool(listen_failure_states)),
        );
        proof {
            lemma_entry_views_of(entries@);
            assert(entry_views_of(entries@) =~= seq![
                ("type"@, JsonView::Str(webhook_type@)),
                ("url"@, JsonView::Str(webhook_url@)),
                ("label"@, JsonView::Str(webhook_label@)),
                ("numConfirmations"@, JsonView::Int(num_confirmation as int)),
                ("allToken"@, JsonView::Bool(all_token)),
                ("listenToFailureStates"@, JsonView::Bool(listen_failure_states)),
            ]);
        }
        self.post_api(request_url.as_str(), JsonValue::Obj(entries))
    }

    fn add_block_webhook(
        &self,
        identifier: &str,
        webhook_type: &str,
        webhook_label: &str,
        webhook_url: &str,
        num_confirmation: i32,
    ) -> (r: ApiRequest) {
        let mut request_url = self.endpoint.clone();
        request_url.append("/api/v2/");
        request_url.append(identifier);
        request_url.append("/webhooks");

        let mut entries: Vec<(String, JsonValue)> = Vec::new();
        entries.push((String::from_str("type"), JsonValue::Str(String::from_str(webhook_type))));
        entries.push((String::from_str("url"), JsonValue::Str(String::from_str(webhook_url))));
        entries.push((String::from_str("label"), JsonValue::Str(String::from_str(webhook_label))));
        entries.push(
            (String::from_str("numConfirmations"), JsonValue::Int(num_confirmation as i64)),
        );
        proof {
            lemma_entry_views_of(entries@);
            assert(entry_views_of(entries@) =~= seq![
                ("type"@, JsonView::Str(webhook_type@)),
                ("url"@, JsonView::Str(webhook_url@)),
                ("label"@, JsonView::Str(webhook_label@)),
                ("numConfirmations"@, JsonView::Int(num_confirmation as int)),
            ]);
        }
        self.post_api(request_url.as_str(), JsonValue::Obj(entries))
    }

    fn list_wallet_webhook(&self, wallet_id: &str, identifier: &str) -> (r: ApiRequest) {
        let mut request_url = self.endpoint.clone();
        request_url.append("/api/v2/");
        request_url.append(identifier);
        request_url.append("/wallet/");
        request_url.append(wallet_id);
        request_url.append("/webhooks");

        let entries: Vec<(String, JsonValue)> = Vec::new();
        proof {
            assert(entry_views_of(entries@) =~= Seq::<(Seq<char>, JsonView)>::empty());
        }
        self.get_api(request_url.as_str(), JsonValue::Obj(entries))
    }

    fn list_block_webhook(&self, identifier: &str) -> (r: ApiRequest) {
        let mut request_url = self.endpoint.clone();
        request_url.append("/api/v2/");
        request_url.append(identifier);
        request_url.append("/webhooks");

        let entries: Vec<(String, JsonValue)> = Vec::new();
        proof {
            assert(entry_views_of(entries@) =~= Seq::<(Seq<char>, JsonView)>::empty());
        }
        self.get_api(request_url.as_str(), JsonValue::Obj(entries))
    }

    fn remove_wallet_webhook(
        &self,
        wallet_id: &str,
        identifier: &str,
        webhook_type: &str,
        webhook_url: &str,
        webhook_id: &str,
    ) -> (r: ApiRequest) {
        let mut request_url = self.endpoint.clone();
        request_url.append("/api/v2/");
        request_url.append(identifier);
        request_url.append("/wallet/");
        request_url.append(wallet_id);
        request_url.append("/webhooks");

        let mut entries: Vec<(String, JsonValue)> = Vec::new();
        entries.push((String::from_str("type"), JsonValue::Str(String::from_str(webhook_type))));
        entries.push((String::from_str("url"), JsonValue::Str(String::from_str(webhook_url))));
        entries.push((String::from_str("id"), JsonValue::Str(String::from_str(webhook_id))));
        proof {
            lemma_entry_views_of(entries@);
            assert(entry_views_of(entries@) =~= seq![
                ("type"@, JsonView::Str(webhook_type@)),
                ("url"@, JsonView::Str(webhook_url@)),
                ("id"@, JsonView::Str(webhook_id@)),
            ]);
        }
        self.delete_api(request_url.as_str(), JsonValue::Obj(entries))
    }

    fn remove_block_webhook(
        &self,
        identifier: &str,
        webhook_type: &str,
        webhook_url: &str,
        webhook_id: &str,
    ) -> (r: ApiRequest) {
        let mut request_url = self.endpoint.clone();
        request_url.append("/api/v2/");
        request_url.append(identifier);
        request_url.append("/webhooks");

        let mut entries: Vec<(String, JsonValue)> = Vec::new();
        entries.push((String::from_str("type"), JsonValue::Str(String::from_str(webhook_type))));
        entries.push((String::from_str("url"), JsonValue::Str(String::from_str(webhook_url))));
        entries.push((String::from_str("id"), JsonValue::Str(String::from_str(webhook_id))));
        proof {
            lemma_entry_views_of(entries@);
            assert(entry_views_of(entries@) =~= seq![
                ("type"@, JsonView::Str(webhook_type@)),
                ("url"@, JsonView::Str(webhook_url@)),
                ("id"@, JsonView::Str(webhook_id@)),
            ]);
        }
        self.delete_api(request_url.as_str(), JsonValue::Obj(entries))
    }
}

} // verus!
