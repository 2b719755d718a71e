use bitgo_api::bitgo_api::value_or_error;
use bitgo_api::client::classify_response;
use bitgo_api::client::BitGoClient;
use bitgo_api::config::Config;
use bitgo_api::error::Error;
use bitgo_api::json::JsonValue;

fn address_body() -> JsonValue {
    JsonValue::Obj(vec![(
        String::from("address"),
        JsonValue::Str(String::from("2MvrwRYBAuRtPTiZ5MyKg42Ke55W3fZJfZS")),
    )])
}

#[test]
fn extraction_returns_the_field_unchanged() {
    let extracted = value_or_error(address_body(), "address").expect("field is present");
    assert_eq!(
        extracted.to_text(),
        "\"2MvrwRYBAuRtPTiZ5MyKg42Ke55W3fZJfZS\""
    );
}

#[test]
fn extraction_names_the_missing_field() {
    let body = JsonValue::Obj(vec![(String::from("other"), JsonValue::Int(1))]);
    match value_or_error(body, "address") {
        Err(Error::InvalidKey { key }) => assert_eq!(key, "address"),
        other => panic!("expected a missing-key error, got {:?}", other),
    }
}

#[test]
fn success_status_returns_the_body_verbatim() {
    let classified = classify_response(200, address_body()).expect("success status");
    assert_eq!(classified.to_text(), address_body().to_text());
}

#[test]
fn the_whole_success_range_counts() {
    assert!(classify_response(299, JsonValue::Null).is_ok());
    assert!(classify_response(199, JsonValue::Null).is_err());
    assert!(classify_response(300, JsonValue::Null).is_err());
    assert!(classify_response(404, JsonValue::Null).is_err());
    assert!(classify_response(500, JsonValue::Null).is_err());
}

#[test]
fn failure_carries_the_message_field() {
    let body = JsonValue::Obj(vec![(
        String::from("message"),
        JsonValue::Str(String::from("insufficient funds")),
    )]);
    match classify_response(400, body) {
        Err(Error::BitgoError { msg }) => assert_eq!(msg, "insufficient funds"),
        other => panic!("expected a remote-service error, got {:?}", other),
    }
}

#[test]
fn failure_without_message_carries_the_placeholder() {
    let body = JsonValue::Obj(vec![(String::from("status"), JsonValue::Int(503))]);
    match classify_response(503, body) {
        Err(Error::BitgoError { msg }) => assert_eq!(msg, "Unknown Error"),
        other => panic!("expected a remote-service error, got {:?}", other),
    }
}

#[test]
fn failure_with_non_object_body_carries_the_placeholder() {
    match classify_response(500, JsonValue::Str(String::from("oops"))) {
        Err(Error::BitgoError { msg }) => assert_eq!(msg, "Unknown Error"),
        other => panic!("expected a remote-service error, got {:?}", other),
    }
}

#[test]
fn failure_with_non_string_message_carries_its_json_text() {
    let body = JsonValue::Obj(vec![(
        String::from("message"),
        JsonValue::Arr(vec![JsonValue::Int(1), JsonValue::Int(2)]),
    )]);
    match classify_response(422, body) {
        Err(Error::BitgoError { msg }) => assert_eq!(msg, "[1,2]"),
        other => panic!("expected a remote-service error, got {:?}", other),
    }
}

#[test]
fn construction_keeps_the_settings() {
    let client = BitGoClient::new(
        String::from("https://localhost:4000"),
        String::from("token"),
        Some(String::from("/tmp/cert.pem")),
    )
    .expect("construction never fails");
    assert_eq!(client.endpoint, "https://localhost:4000");
    assert_eq!(client.token, "token");
    assert_eq!(client.bitgo_cert_path.as_deref(), Some("/tmp/cert.pem"));
}

#[test]
fn from_config_copies_every_setting() {
    let config = Config {
        endpoint: String::from("endpoint"),
        token: String::from("token"),
        bitgo_cert_path: None,
    };
    let client = BitGoClient::from_config(&config).expect("construction never fails");
    assert_eq!(client.endpoint, "endpoint");
    assert_eq!(client.token, "token");
    assert!(client.bitgo_cert_path.is_none());
}

#[test]
fn pinning_applies_only_to_a_non_empty_path() {
    let with_path = BitGoClient::new(
        String::from("e"),
        String::from("t"),
        Some(String::from("certs/root.pem")),
    )
    .unwrap();
    assert_eq!(with_path.pinning_path().map(String::as_str), Some("certs/root.pem"));

    let empty_path =
        BitGoClient::new(String::from("e"), String::from("t"), Some(String::new())).unwrap();
    assert!(empty_path.pinning_path().is_none());

    let no_path = BitGoClient::new(String::from("e"), String::from("t"), None).unwrap();
    assert!(no_path.pinning_path().is_none());
}

#[test]
fn bad_certificate_material_never_panics() {
    let outcome = BitGoClient::get_ssl_certificate(b"not a certificate");
    if let Err(err) = outcome {
        assert!(matches!(err, Error::ReqwestError { .. }));
    }
}

#[test]
fn errors_describe_themselves() {
    let missing = Error::InvalidKey {
        key: String::from("address"),
    };
    assert_eq!(missing.describe(), "Invalid key: address");
    let transport = Error::ReqwestError {
        msg: String::from("connection refused"),
    };
    assert_eq!(transport.describe(), "reqwest Error: connection refused");
    let remote = Error::BitgoError {
        msg: String::from("insufficient funds"),
    };
    assert_eq!(remote.describe(), "bitgo Error: insufficient funds");
}
