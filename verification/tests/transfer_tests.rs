use bitgo_api::client::BitGoClient;
use bitgo_api::request::Method;
use bitgo_api::transfer::BitGoTransferAPI;

fn client() -> BitGoClient {
    BitGoClient::new(String::from("endpoint"), String::from("token"), None).unwrap()
}

#[test]
fn fetching_one_transfer_plans_one_get() {
    let request = client().get_transaction("wallet_id", "tbtc", "transfer_id");
    assert_eq!(request.method, Method::Get);
    assert_eq!(
        request.url,
        "endpoint/api/v2/tbtc/wallet/wallet_id/transfer/transfer_id"
    );
    assert_eq!(request.body_text(), "{}");
}

#[test]
fn listing_transfers_plans_one_get() {
    let request = client().transfer_list("wallet_id", "tbtc");
    assert_eq!(request.method, Method::Get);
    assert_eq!(request.url, "endpoint/api/v2/tbtc/wallet/wallet_id/transfer");
    assert_eq!(request.body_text(), "{}");
}

#[test]
fn estimating_the_fee_plans_one_get() {
    let request = client().get_fee("tbtc", "2", "addr", "data", "10000", "false");
    assert_eq!(request.method, Method::Get);
    assert_eq!(request.url, "endpoint/api/v2/tbtc/tx/fee");
    assert_eq!(
        request.body_text(),
        "{\"numBlocks\":\"2\",\"recipient\":\"addr\",\"data\":\"data\",\"amount\":\"10000\",\
         \"hop\":\"false\"}"
    );
}

#[test]
fn changing_the_fee_plans_one_post() {
    let request = client().change_fee("tbtc", "wallet_id", "tx_id", "900");
    assert_eq!(request.method, Method::Post);
    assert_eq!(request.url, "endpoint/api/v2/tbtc/wallet/wallet_id/tx/changeFee");
    assert_eq!(request.body_text(), "{\"txid\":\"tx_id\",\"fee\":\"900\"}");
}
