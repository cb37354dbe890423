use hyperhelper::err::ApiKeyError;
use hyperhelper::query::QueryMap;
use hyperhelper::server::{
    bad_request_from, parse_payload, response_json_cors_from, response_json_from, ServerError,
};

#[test]
fn query_map_insert_and_get() {
    let mut m = QueryMap::empty();
    assert_eq!(m.get("a"), None);
    m.insert("a".to_string(), "1".to_string());
    m.insert("b".to_string(), "2".to_string());
    assert_eq!(m.get("a"), Some(&"1".to_string()));
    m.insert("a".to_string(), "3".to_string());
    assert_eq!(m.get("a"), Some(&"3".to_string()));
    assert_eq!(m.get("b"), Some(&"2".to_string()));
    assert_eq!(m.get("c"), None);
}

#[test]
fn parse_payload_decodes_or_reports_codec_error() {
    let ok: Vec<i64> = parse_payload(b"[4,5]").unwrap();
    assert_eq!(ok, vec![4, 5]);
    let got: Result<Vec<i64>, ServerError> = parse_payload(b"{");
    match got {
        Err(ServerError::SerdeJSON(_)) => {}
        other => panic!("expected a codec error, got {:?}", other),
    }
}

#[test]
fn json_response_builders_carry_the_given_text() {
    let resp = response_json_from("{\"a\":1}".to_string());
    assert_eq!(resp.status, 200);
    assert_eq!(
        resp.headers,
        vec![("Content-Type".to_string(), "application/json".to_string())]
    );
    assert_eq!(resp.body, "{\"a\":1}");

    let resp = response_json_cors_from("[]".to_string());
    assert_eq!(resp.status, 200);
    assert_eq!(resp.headers.len(), 2);
    assert_eq!(
        resp.headers[1],
        ("Access-Control-Allow-Origin".to_string(), "*".to_string())
    );
    assert_eq!(resp.body, "[]");
}

#[test]
fn bad_request_prefixes_the_message() {
    let resp = bad_request_from("boom");
    assert_eq!(resp.status, 400);
    assert!(resp.headers.is_empty());
    assert_eq!(resp.body, "BAD_REQUEST: boom");
}

#[test]
fn api_key_error_variants_carry_their_fields() {
    match ApiKeyError::MissingEnv("X_API_KEY".to_string()) {
        ApiKeyError::MissingEnv(var) => assert_eq!(var, "X_API_KEY"),
        ApiKeyError::Rejected(_) => panic!("wrong variant"),
    }
    match ApiKeyError::Rejected("expired".to_string()) {
        ApiKeyError::Rejected(reason) => assert_eq!(reason, "expired"),
        ApiKeyError::MissingEnv(_) => panic!("wrong variant"),
    }
}
