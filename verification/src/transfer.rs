//! Transfer operations: reading transfers and querying or changing fees.

use vstd::prelude::*;
use crate::client::BitGoClient;
use crate::json::JsonValue;
use crate::json::JsonView;
use crate::json::entry_views_of;
use crate::json::lemma_entry_views_of;
use crate::request::ApiCredentials;
use crate::request::ApiRequest;
use crate::request::Method;
use crate::request::carries_required_headers;

verus! {

/// The transfer surface of the API: each method is a pure function of the
/// client settings and its arguments to the one request that operation
/// sends. No call order matters and no state is retained.
pub trait BitGoTransferAPI: ApiCredentials {
    /// Plan the call fetching one transfer: a `GET` of
    /// `{endpoint}/api/v2/{identifier}/wallet/{wallet_id}/transfer/{transfer_id}`.
    fn get_transaction(&self, wallet_id: &str, identifier: &str, transfer_id: &str) -> (r:
        ApiRequest)
        ensures
            r.method == Method::Get,
            r.url@ == self.endpoint_view() + "/api/v2/"@ + identifier@ + "/wallet/"@ + wallet_id@
                + "/transfer/"@ + transfer_id@,
            r.body@ == JsonView::Obj(Seq::empty()),
            carries_required_headers(r.headers@, self.token_view()),
    ;

    /// Plan the call listing a wallet's transfers: a `GET` of
    /// `{endpoint}/api/v2/{identifier}/wallet/{wallet_id}/transfer`.
    fn transfer_list(&self, wallet_id: &str, identifier: &str) -> (r: ApiRequest)
        ensures
            r.method == Method::Get,
            r.url@ == self.endpoint_view() + "/api/v2/"@ + identifier@ + "/wallet/"@ + wallet_id@
                + "/transfer"@,
            r.body@ == JsonView::Obj(Seq::empty()),
            carries_required_headers(r.headers@, self.token_view()),
    ;

    /// Plan the fee-estimate call: a `GET` of
    /// `{endpoint}/api/v2/{identifier}/tx/fee` whose body carries the
    /// estimation parameters.
    fn get_fee(
        &self,
        identifier: &str,
        num_blocks: &str,
        recipient: &str,
        data: &str,
        amount: &str,
        hop: &str,
    ) -> (r: ApiRequest)
        ensures
            r.method == Method::Get,
            r.url@ == self.endpoint_view() + "/api/v2/"@ + identifier@ + "/tx/fee"@,
            r.body@ == JsonView::Obj(
                seq![
                    ("numBlocks"@, JsonView::Str(num_blocks@)),
                    ("recipient"@, JsonView::Str(recipient@)),
                    ("data"@, JsonView::Str(data@)),
                    ("amount"@, JsonView::Str(amount@)),
                    ("hop"@, JsonView::Str(hop@)),
                ],
            ),
            carries_required_headers(r.headers@, self.token_view()),
    ;

    /// Plan the fee-change call: a `POST` to
    /// `{endpoint}/api/v2/{identifier}/wallet/{wallet_id}/tx/changeFee`
    /// naming the transaction and the new fee.
    fn change_fee(&self, identifier: &str, wallet_id: &str, tx_id: &str, fee: &str) -> (r:
        ApiRequest)
        ensures
            r.method == Method::Post,
            r.url@ == self.endpoint_view() + "/api/v2/"@ + identifier@ + "/wallet/"@ + wallet_id@
                + "/tx/changeFee"@,
            r.body@ == JsonView::Obj(
                seq![("txid"@, JsonView::Str(tx_id@)), ("fee"@, JsonView::Str(fee@))],
            ),
            carries_required_headers(r.headers@, self.token_view()),
    ;
}

impl BitGoTransferAPI for BitGoClient {
    fn get_transaction(&self, wallet_id: &str, identifier: &str, transfer_id: &str) -> (r:
        ApiRequest) {
        let mut request_url = self.endpoint.clone();
        request_url.append("/api/v2/");
        request_url.append(identifier);
        request_url.append("/wallet/");
        request_url.append(wallet_id);
        request_url.append("/transfer/");
        request_url.append(transfer_id);

        let entries: Vec<(String, JsonValue)> = Vec::new();
        proof {
            assert(entry_views_of(entries@) =~= Seq::<(Seq<char>, JsonView)>::empty());
        }
        self.get_api(request_url.as_str(), JsonValue::Obj(entries))
    }

    fn transfer_list(&self, wallet_id: &str, identifier: &str) -> (r: ApiRequest) {
        let mut request_url = self.endpoint.clone();
        request_url.append("/api/v2/");
        request_url.append(identifier);
        request_url.append("/wallet/");
        request_url.append(wallet_id);
        request_url.append("/transfer");

        let entries: Vec<(String, JsonValue)> = Vec::new();
        proof {
            assert(entry_views_of(entries@) =~= Seq::<(Seq<char>, JsonView)>::empty());
        }
        self.get_api(request_url.as_str(), JsonValue::Obj(entries))
    }

    fn get_fee(
        &self,
        identifier: &str,
        num_blocks: &str,
        recipient: &str,
        data: &str,
        amount: &str,
        hop: &str,
    ) -> (r: ApiRequest) {
        let mut request_url = self.endpoint.clone();
        request_url.append("/api/v2/");
        request_url.append(identifier);
        request_url.append("/tx/fee");

        let mut entries: Vec<(String, JsonValue)> = Vec::new();
        entries.push((String::from_str("numBlocks"), JsonValue::Str(String::from_str(num_blocks))));
        entries.push((String::from_str("recipient"), JsonValue::Str(String::from_str(recipient))));
        entries.push((String::from_str("data"), JsonValue::Str(String::from_str(data))));
        entries.push((String::from_str("amount"), JsonValue::Str(String::from_str(amount))));
        entries.push((String::from_str("hop"), JsonValue::Str(String::from_str(hop))));
        proof {
            lemma_entry_views_of(entries@);
            assert(entry_views_of(entries@) =~= seq![
                ("numBlocks"@, JsonView::Str(num_blocks@)),
                ("recipient"@, JsonView::Str(recipient@)),
                ("data"@, JsonView::Str(data@)),
                ("amount"@, JsonView::Str(amount@)),
                ("hop"@, JsonView::Str(hop@)),
            ]);
        }
        self.get_api(request_url.as_str(), JsonValue::Obj(entries))
    }

    fn change_fee(&self, identifier: &str, wallet_id: &str, tx_id: &str, fee: &str) -> (r:
        ApiRequest) {
        let mut request_url = self.endpoint.clone();
        request_url.append("/api/v2/");
        request_url.append(identifier);
        request_url.append("/wallet/");
        request_url.append(wallet_id);
        request_url.append("/tx/changeFee");

        let mut entries: Vec<(String, JsonValue)> = Vec::new();
        entries.push((String::from_str("txid"), JsonValue::Str(String::from_str(tx_id))));
        entries.push((String::from_str("fee"), JsonValue::Str(String::from_str(fee))));
        proof {
            lemma_entry_views_of(entries@);
            assert(entry_views_of(entries@) =~= seq![
                ("txid"@, JsonView::Str(tx_id@)),
                ("fee"@, JsonView::Str(fee@)),
            ]);
        }
        self.post_api(request_url.as_str(), JsonValue::Obj(entries))
    }
}

} // verus!
