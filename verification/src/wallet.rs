//! Wallet operations: generating a wallet and creating receive addresses.

use vstd::prelude::*;
use crate::bitgo_api::BitGoAPI;
use crate::json::JsonValue;
use crate::json::JsonView;
use crate::json::entry_views_of;
use crate::json::lemma_entry_views_of;
use crate::request::ApiCredentials;
use crate::request::ApiRequest;
use crate::request::Method;
use crate::request::carries_required_headers;

verus! {

/// The wallet surface of the API: each method is a pure function of the
/// client settings and its arguments to the one request that operation
/// sends. No call order matters and no state is retained.
pub trait BitGoWallet: ApiCredentials {
    /// Plan the wallet-generation call: one `POST` to
    /// `{endpoint}/api/v2/{identifier}/wallet/generate` whose body carries
    /// the wallet label and the passphrase that encrypts the user keychain.
    fn generate(&self, name: &str, identifier: &str, passphrase: &str) -> (r: ApiRequest)
        ensures
            r.method == Method::Post,
            r.url@ == self.endpoint_view() + "/api/v2/"@ + identifier@ + "/wallet/generate"@,
            r.body@ == JsonView::Obj(
                seq![
                    ("label"@, JsonView::Str(name@)),
                    ("passphrase"@, JsonView::Str(passphrase@)),
                ],
            ),
            carries_required_headers(r.headers@, self.token_view()),
    ;

    /// Plan the address-generation call: one `POST` to
    /// `{endpoint}/api/v2/{identifier}/wallet/{wallet_id}/address` with an
    /// empty JSON object body.
    fn address(&self, wallet_id: &str, identifier: &str) -> (r: ApiRequest)
        ensures
            r.method == Method::Post,
            r.url@ == self.endpoint_view() + "/api/v2/"@ + identifier@ + "/wallet/"@ + wallet_id@
                + "/address"@,
            r.body@ == JsonView::Obj(Seq::empty()),
            carries_required_headers(r.headers@, self.token_view()),
    ;
}

/// A wallet handle pairing the client it talks through.
pub struct Wallet {
    pub bitgo: BitGoAPI,
}

impl BitGoWallet for BitGoAPI {
    fn generate(&self, name: &str, identifier: &str, passphrase: &str) -> (r: ApiRequest) {
        let mut request_url = self.endpoint.clone();
        request_url.append("/api/v2/");
        request_url.append(identifier);
        request_url.append("/wallet/generate");

        let mut entries: Vec<(String, JsonValue)> = Vec::new();
        entries.push((String::from_str("label"), JsonValue::Str(String::from_str(name))));
        entries.push(
            (String::from_str("passphrase"), JsonValue::Str(String::from_str(passphrase))),
        );
        proof {
            lemma_entry_views_of(entries@);
            assert(entry_views_of(entries@) =~= seq![
                ("label"@, JsonView::Str(name@)),
                ("passphrase"@, JsonView::Str(passphrase@)),
            ]);
        }
        self.post_api(request_url.as_str(), JsonValue::Obj(entries))
    }

    fn address(&self, wallet_id: &str, identifier: &str) -> (r: ApiRequest) {
        let mut request_url = self.endpoint.clone();
        request_url.append("/api/v2/");
        request_url.append(identifier);
        request_url.append("/wallet/");
        request_url.append(wallet_id);
        request_url.append("/address");

        let entries: Vec<(String, JsonValue)> = Vec::new();
        proof {
            assert(entry_views_of(entries@) =~= Seq::<(Seq<char>, JsonView)>::empty());
        }
        self.post_api(request_url.as_str(), JsonValue::Obj(entries))
    }
}

} // verus!
