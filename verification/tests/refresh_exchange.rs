use fire_auth::refresh::{keys_url, parse_refresh_response, refresh_url};
use fire_auth::Error;

const GOOD_BODY: &str = "{\
\"access_token\": \"at-1\",\
\"expires_in\": \"3600\",\
\"token_type\": \"Bearer\",\
\"refresh_token\": \"rt-2\",\
\"id_token\": \"idt-3\",\
\"user_id\": \"u-4\",\
\"project_id\": \"p-5\"}";

#[test]
fn refresh_url_carries_the_api_key() {
    assert_eq!(
        refresh_url("my-key"),
        "https://securetoken.googleapis.com/v1/token?key=my-key"
    );
}

#[test]
fn keys_url_is_the_fixed_endpoint() {
    assert_eq!(
        keys_url(),
        "https://www.googleapis.com/robot/v1/metadata/x509/securetoken@system.gserviceaccount.com"
    );
}

#[test]
fn successful_exchange_returns_the_body_verbatim() {
    let t = match parse_refresh_response(true, GOOD_BODY) {
        Ok(t) => t,
        Err(e) => panic!("expected a refresh result: {}", e.message()),
    };
    assert_eq!(t.access_token, "at-1");
    assert_eq!(t.expires_in, "3600");
    assert_eq!(t.token_type, "Bearer");
    assert_eq!(t.refresh_token, "rt-2");
    assert_eq!(t.id_token, "idt-3");
    assert_eq!(t.user_id, "u-4");
    assert_eq!(t.project_id, "p-5");
}

#[test]
fn missing_field_is_a_network_error() {
    let body = "{\"access_token\": \"at-1\"}";
    match parse_refresh_response(true, body) {
        Err(Error::Network(m)) => assert_eq!(m, "Failed to parse token response!"),
        _ => panic!("expected a network error"),
    }
}

#[test]
fn non_json_success_body_is_a_network_error() {
    match parse_refresh_response(true, "<html>") {
        Err(Error::Network(m)) => assert_eq!(m, "Failed to parse token response!"),
        _ => panic!("expected a network error"),
    }
}

#[test]
fn structured_failure_surfaces_the_provider_message() {
    let body = "{\"error\": {\"code\": 400, \"message\": \"INVALID_REFRESH_TOKEN\"}}";
    match parse_refresh_response(false, body) {
        Err(Error::Token(m)) => assert_eq!(m, "INVALID_REFRESH_TOKEN"),
        _ => panic!("expected a token error"),
    }
}

#[test]
fn unstructured_failure_body_is_a_network_error() {
    match parse_refresh_response(false, "gateway timeout") {
        Err(Error::Network(m)) => assert_eq!(m, "Failed to parse error response!"),
        _ => panic!("expected a network error"),
    }
}
