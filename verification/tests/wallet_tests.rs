use bitgo_api::bitgo_api::BitGoAPI;
use bitgo_api::config::Config;
use bitgo_api::request::Method;
use bitgo_api::wallet::BitGoWallet;

#[test]
fn generating_a_wallet_plans_one_exact_post() {
    let api = BitGoAPI::new(String::from("endpoint"), String::from("token")).unwrap();
    let request = api.generate("wallet", "tbtc", "12345");
    assert_eq!(request.method, Method::Post);
    assert_eq!(request.url, "endpoint/api/v2/tbtc/wallet/generate");
    assert_eq!(
        request.body_text(),
        "{\"label\":\"wallet\",\"passphrase\":\"12345\"}"
    );
    assert!(request
        .headers
        .iter()
        .any(|h| h.0 == "Authorization" && h.1 == "Bearer token"));
    assert!(request
        .headers
        .iter()
        .any(|h| h.0 == "Content-Type" && h.1 == "application/json"));
}

#[test]
fn generating_an_address_plans_one_exact_post() {
    let api = BitGoAPI::new(String::from("endpoint"), String::from("token")).unwrap();
    let request = api.address("wallet_id", "tbtc");
    assert_eq!(request.method, Method::Post);
    assert_eq!(request.url, "endpoint/api/v2/tbtc/wallet/wallet_id/address");
    assert_eq!(request.body_text(), "{}");
}

#[test]
fn a_configured_client_plans_the_same_wallet_request() {
    let config = Config {
        endpoint: String::from("https://test.example"),
        token: String::from("t0"),
        bitgo_cert_path: None,
    };
    let api = BitGoAPI::from_config(&config).unwrap();
    let request = api.generate("w", "teth", "pass");
    assert_eq!(request.url, "https://test.example/api/v2/teth/wallet/generate");
    assert_eq!(request.body_text(), "{\"label\":\"w\",\"passphrase\":\"pass\"}");
}
