use bitgo_api::bitgo_api::BitGoAPI;
use bitgo_api::client::BitGoClient;
use bitgo_api::json::JsonValue;
use bitgo_api::request::ApiRequest;
use bitgo_api::request::Method;

fn expects_required_headers(request: &ApiRequest, token: &str) {
    let authorization = format!("Bearer {}", token);
    assert!(request
        .headers
        .iter()
        .any(|h| h.0 == "Authorization" && h.1 == authorization));
    assert!(request
        .headers
        .iter()
        .any(|h| h.0 == "Content-Type" && h.1 == "application/json"));
}

#[test]
fn every_planned_request_carries_both_headers() {
    let api = BitGoAPI::new(String::from("endpoint"), String::from("token")).unwrap();
    expects_required_headers(&api.get_api("endpoint/api/v2/ping", JsonValue::Null), "token");
    expects_required_headers(&api.post_api("endpoint/api/v2/ping", JsonValue::Null), "token");
    expects_required_headers(&api.delete_api("endpoint/api/v2/ping", JsonValue::Null), "token");

    let client =
        BitGoClient::new(String::from("endpoint"), String::from("secret"), None).unwrap();
    expects_required_headers(&client.get_api("endpoint/api/v2/ping", JsonValue::Null), "secret");
    expects_required_headers(&client.post_api("endpoint/api/v2/ping", JsonValue::Null), "secret");
    expects_required_headers(
        &client.delete_api("endpoint/api/v2/ping", JsonValue::Null),
        "secret",
    );
}

#[test]
fn planned_requests_keep_method_url_and_body() {
    let api = BitGoAPI::new(String::from("endpoint"), String::from("token")).unwrap();
    let params = JsonValue::Obj(vec![(String::from("k"), JsonValue::Int(1))]);
    let request = api.get_api("endpoint/api/v2/ping", params);
    assert_eq!(request.method, Method::Get);
    assert_eq!(request.url, "endpoint/api/v2/ping");
    assert_eq!(request.body_text(), "{\"k\":1}");

    let request = api.post_api("endpoint/api/v2/ping", JsonValue::Null);
    assert_eq!(request.method, Method::Post);
    let request = api.delete_api("endpoint/api/v2/ping", JsonValue::Null);
    assert_eq!(request.method, Method::Delete);
}

#[test]
fn headers_are_exactly_the_two_required() {
    let request = ApiRequest::new(
        Method::Post,
        String::from("u"),
        "tok",
        JsonValue::Obj(Vec::new()),
    );
    assert_eq!(request.headers.len(), 2);
    assert_eq!(request.headers[0].0, "Content-Type");
    assert_eq!(request.headers[0].1, "application/json");
    assert_eq!(request.headers[1].0, "Authorization");
    assert_eq!(request.headers[1].1, "Bearer tok");
}
