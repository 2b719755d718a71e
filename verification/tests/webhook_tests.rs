use bitgo_api::client::BitGoClient;
use bitgo_api::request::Method;
use bitgo_api::webhook::BitGoWebhookAPI;

fn client() -> BitGoClient {
    BitGoClient::new(String::from("endpoint"), String::from("token"), None).unwrap()
}

#[test]
fn adding_a_wallet_webhook_plans_one_exact_post() {
    let request = client().add_wallet_webhook(
        "wallet_id",
        "tbtc",
        "my label",
        "transfer",
        "https://callback.example",
        3,
        false,
        true,
    );
    assert_eq!(request.method, Method::Post);
    assert_eq!(request.url, "endpoint/api/v2/tbtc/wallet/wallet_id/webhooks");
    assert_eq!(
        request.body_text(),
        "{\"type\":\"transfer\",\"url\":\"https://callback.example\",\"label\":\"my label\",\
         \"numConfirmations\":3,\"allToken\":false,\"listenToFailureStates\":true}"
    );
}

#[test]
fn adding_a_block_webhook_plans_one_exact_post() {
    let request =
        client().add_block_webhook("tbtc", "block", "blocks", "https://callback.example", 0);
    assert_eq!(request.method, Method::Post);
    assert_eq!(request.url, "endpoint/api/v2/tbtc/webhooks");
    assert_eq!(
        request.body_text(),
        "{\"type\":\"block\",\"url\":\"https://callback.example\",\"label\":\"blocks\",\
         \"numConfirmations\":0}"
    );
}

#[test]
fn listing_wallet_webhooks_plans_one_get() {
    let request = client().list_wallet_webhook("wallet_id", "tbtc");
    assert_eq!(request.method, Method::Get);
    assert_eq!(request.url, "endpoint/api/v2/tbtc/wallet/wallet_id/webhooks");
    assert_eq!(request.body_text(), "{}");
}

#[test]
fn listing_block_webhooks_plans_one_get() {
    let request = client().list_block_webhook("tbtc");
    assert_eq!(request.method, Method::Get);
    assert_eq!(request.url, "endpoint/api/v2/tbtc/webhooks");
    assert_eq!(request.body_text(), "{}");
}

#[test]
fn removing_a_wallet_webhook_plans_one_delete() {
    let request = client().remove_wallet_webhook(
        "wallet_id",
        "tbtc",
        "transfer",
        "https://callback.example",
        "webhook_id",
    );
    assert_eq!(request.method, Method::Delete);
    assert_eq!(request.url, "endpoint/api/v2/tbtc/wallet/wallet_id/webhooks");
    assert_eq!(
        request.body_text(),
        "{\"type\":\"transfer\",\"url\":\"https://callback.example\",\"id\":\"webhook_id\"}"
    );
}

#[test]
fn removing_a_block_webhook_plans_one_delete() {
    let request =
        client().remove_block_webhook("tbtc", "block", "https://callback.example", "webhook_id");
    assert_eq!(request.method, Method::Delete);
    assert_eq!(request.url, "endpoint/api/v2/tbtc/webhooks");
    assert_eq!(
        request.body_text(),
        "{\"type\":\"block\",\"url\":\"https://callback.example\",\"id\":\"webhook_id\"}"
    );
}
