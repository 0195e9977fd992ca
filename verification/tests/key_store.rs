use fire_auth::keys::SigningKeySet;
use fire_auth::Error;

#[test]
fn failed_fetch_reports_an_api_error() {
    match SigningKeySet::from_response(false, "{}") {
        Err(Error::API(m)) => assert_eq!(m, "Failed to fetch keys!"),
        _ => panic!("expected an API error"),
    }
}

#[test]
fn non_json_body_reports_a_parse_error() {
    match SigningKeySet::from_response(true, "not json at all") {
        Err(Error::API(m)) => assert_eq!(m, "Failed to parse keys!"),
        _ => panic!("expected an API error"),
    }
}

#[test]
fn non_string_values_report_a_parse_error() {
    match SigningKeySet::from_response(true, "{\"k1\": 5}") {
        Err(Error::API(m)) => assert_eq!(m, "Failed to parse keys!"),
        _ => panic!("expected an API error"),
    }
}

#[test]
fn fetched_keys_are_found_by_identifier() {
    let body = "{\"k1\": \"pem-one\", \"k2\": \"pem-two\"}";
    let keys = match SigningKeySet::from_response(true, body) {
        Ok(ks) => ks,
        Err(e) => panic!("expected a key set: {}", e.message()),
    };
    assert_eq!(keys.get_signing_key("k1"), Some("pem-one".to_string()));
    assert_eq!(keys.get_signing_key("k2"), Some("pem-two".to_string()));
}

#[test]
fn absent_identifier_yields_no_key() {
    let keys = SigningKeySet::from_response(true, "{\"k1\": \"pem-one\"}").ok().unwrap();
    assert_eq!(keys.get_signing_key("k9"), None);
}

#[test]
fn empty_document_holds_no_keys() {
    let keys = SigningKeySet::from_response(true, "{}").ok().unwrap();
    assert_eq!(keys.get_signing_key("k1"), None);
}
