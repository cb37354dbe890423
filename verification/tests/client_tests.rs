use hyperhelper::client::{
    build_get_request, build_post_request, build_put_request, decode_payload, encode_payload,
    get_api_key, Method,
};
use hyperhelper::err::{ArgError, HypErr, MalformedArg, MissingArg};

#[test]
fn api_key_explicit_wins() {
    assert_eq!(get_api_key(Some("abc"), Some("from-env")), "abc");
    assert_eq!(get_api_key(Some("abc"), None), "abc");
}

#[test]
fn api_key_falls_back_to_environment_then_empty() {
    assert_eq!(get_api_key(None, Some("from-env")), "from-env");
    assert_eq!(get_api_key(None, None), "");
}

#[test]
fn get_request_shape() {
    let r = build_get_request("http://example.com/a", "k1".to_string());
    assert_eq!(r.method, Method::Get);
    assert_eq!(r.url, "http://example.com/a");
    assert_eq!(
        r.headers,
        vec![
            ("accept".to_string(), "application/json".to_string()),
            ("X-Api-Key".to_string(), "k1".to_string()),
        ]
    );
    assert_eq!(r.body, "");
}

#[test]
fn put_request_shape() {
    let r = build_put_request("http://example.com/a", "".to_string());
    assert_eq!(r.method, Method::Put);
    assert_eq!(r.headers.len(), 2);
    assert_eq!(r.body, "");
}

#[test]
fn post_request_carries_body_and_content_type() {
    let r = build_post_request(
        "http://example.com/a",
        "{\"x\":1}".to_string(),
        "k1".to_string(),
    );
    assert_eq!(r.method, Method::Post);
    assert_eq!(
        r.headers,
        vec![
            ("accept".to_string(), "application/json".to_string()),
            ("X-Api-Key".to_string(), "k1".to_string()),
            (
                "Content-type".to_string(),
                "application/json; charset=UTF-8".to_string()
            ),
        ]
    );
    assert_eq!(r.body, "{\"x\":1}");
}

#[test]
fn payload_round_trip() {
    let payload: Vec<i64> = vec![1, -2, 3];
    let encoded = encode_payload(&payload).unwrap();
    let back: Vec<i64> = decode_payload(encoded.as_bytes()).unwrap();
    assert_eq!(back, payload);

    let mut map = std::collections::BTreeMap::new();
    map.insert("a".to_string(), 1i64);
    map.insert("b".to_string(), 2i64);
    let encoded = encode_payload(&map).unwrap();
    let back: std::collections::BTreeMap<String, i64> = decode_payload(encoded.as_bytes()).unwrap();
    assert_eq!(back, map);
}

#[test]
fn encode_produces_json_text() {
    assert_eq!(encode_payload(&vec![1i64, 2]).unwrap(), "[1,2]");
    assert_eq!(encode_payload(&"hi".to_string()).unwrap(), "\"hi\"");
}

#[test]
fn decode_rejects_malformed_json() {
    let got: Result<Vec<i64>, HypErr> = decode_payload(b"[1,2");
    match got {
        Err(HypErr::SerdeJSON(_)) => {}
        other => panic!("expected a codec error, got {:?}", other),
    }
}

#[test]
fn errors_compose_upward_losslessly() {
    let malformed = MalformedArg::new("k", "v", "i64");
    let unified = HypErr::from(ArgError::from(malformed));
    match unified {
        HypErr::Arg(ArgError::Malformed(e)) => {
            assert_eq!(e.key, "k");
            assert_eq!(e.value, "v");
            assert_eq!(e.dtype, "i64");
        }
        other => panic!("expected a wrapped argument error, got {:?}", other),
    }
    let missing = MissingArg { missing_key: "k".to_string() };
    match HypErr::from(missing) {
        HypErr::Arg(ArgError::Missing(e)) => assert_eq!(e.missing_key, "k"),
        other => panic!("expected a wrapped argument error, got {:?}", other),
    }
}

#[test]
fn err_messages_render_their_fields() {
    let missing = MissingArg { missing_key: "user_id".to_string() };
    assert_eq!(missing.message(), "Required argument 'user_id' not found");
    let malformed = MalformedArg::new("user_id", "abc", "i64");
    assert_eq!(
        malformed.message(),
        "Could not convert value 'abc' for key 'user_id' to i64 type"
    );
}
