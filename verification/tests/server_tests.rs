use hyperhelper::http_data::RequestData;
use hyperhelper::server::{
    bad_request_resp, build_response_200_message, build_response_json, build_response_json_404,
    build_response_json_cors, get_common_headers, get_header, get_query, get_query_opt_param,
    get_query_param, nginx_get_ip, nginx_real_ip_only, preflight_cors, ArgError, MalformedArg,
    MissingArg, PK404, UNKNOWN_IP,
};

fn req_with_uri(uri: &str) -> RequestData {
    RequestData { uri: uri.to_string(), headers: Vec::new() }
}

fn req_with_headers(headers: Vec<(&str, &[u8])>) -> RequestData {
    RequestData {
        uri: "/".to_string(),
        headers: headers
            .into_iter()
            .map(|(k, v)| (k.to_string(), v.to_vec()))
            .collect(),
    }
}

#[test]
fn query_collects_pairs() {
    let req = req_with_uri("/path?k1=v1&k2=v2");
    let q = get_query(&req);
    assert_eq!(q.get("k1"), Some(&"v1".to_string()));
    assert_eq!(q.get("k2"), Some(&"v2".to_string()));
    assert_eq!(q.get("k3"), None);
}

#[test]
fn query_percent_decodes_once() {
    let req = req_with_uri("/path?x%20y=a+b&plain=%2541");
    let q = get_query(&req);
    assert_eq!(q.get("x y"), Some(&"a b".to_string()));
    // %25 is the escape of '%' itself: decoding happens exactly once.
    assert_eq!(q.get("plain"), Some(&"%41".to_string()));
}

#[test]
fn query_later_duplicates_override() {
    let req = req_with_uri("/path?a=1&b=2&a=3");
    let q = get_query(&req);
    assert_eq!(q.get("a"), Some(&"3".to_string()));
    assert_eq!(q.get("b"), Some(&"2".to_string()));
}

#[test]
fn query_of_uri_without_query_is_empty() {
    let q = get_query(&req_with_uri("/path"));
    assert_eq!(q.get("a"), None);
}

#[test]
fn query_param_present_parses() {
    let req = req_with_uri("/u?user_id=5");
    let got: Result<i64, ArgError> = get_query_param(&req, "user_id");
    assert_eq!(got.unwrap(), 5);
}

#[test]
fn query_param_malformed_reports_key_value_type() {
    let req = req_with_uri("/u?user_id=abc");
    let got: Result<i64, ArgError> = get_query_param(&req, "user_id");
    match got {
        Err(ArgError::Malformed(e)) => {
            assert_eq!(e.key, "user_id");
            assert_eq!(e.value, "abc");
            assert_eq!(e.dtype, "i64");
        }
        other => panic!("expected a malformed-argument error, got {:?}", other),
    }
}

#[test]
fn query_param_missing_reports_key() {
    let req = req_with_uri("/u?other=1");
    let got: Result<i64, ArgError> = get_query_param(&req, "user_id");
    match got {
        Err(ArgError::Missing(e)) => assert_eq!(e.missing_key, "user_id"),
        other => panic!("expected a missing-argument error, got {:?}", other),
    }
}

#[test]
fn opt_param_absent_is_success_none() {
    let req = req_with_uri("/u?other=1");
    let got: Result<Option<i64>, MalformedArg> = get_query_opt_param(&req, "user_id");
    assert_eq!(got.unwrap(), None);
}

#[test]
fn opt_param_empty_value_is_handed_to_the_parser() {
    let req = req_with_uri("/u?user_id=");
    let got: Result<Option<i64>, MalformedArg> = get_query_opt_param(&req, "user_id");
    let e = got.unwrap_err();
    assert_eq!(e.key, "user_id");
    assert_eq!(e.value, "");
    let got: Result<Option<String>, MalformedArg> = get_query_opt_param(&req, "user_id");
    assert_eq!(got.unwrap(), Some(String::new()));
}

#[test]
fn opt_param_parses_various_scalars() {
    let req = req_with_uri("/u?n=%2B42&b=true&s=hi&big=18446744073709551615");
    let n: Option<i64> = get_query_opt_param(&req, "n").unwrap();
    assert_eq!(n, Some(42));
    let b: Option<bool> = get_query_opt_param(&req, "b").unwrap();
    assert_eq!(b, Some(true));
    let s: Option<String> = get_query_opt_param(&req, "s").unwrap();
    assert_eq!(s, Some("hi".to_string()));
    let big: Option<u64> = get_query_opt_param(&req, "big").unwrap();
    assert_eq!(big, Some(u64::MAX));
}

#[test]
fn param_range_edges() {
    let req = req_with_uri("/u?max=9223372036854775807&min=-9223372036854775808&over=9223372036854775808");
    let max: Option<i64> = get_query_opt_param(&req, "max").unwrap();
    assert_eq!(max, Some(i64::MAX));
    let min: Option<i64> = get_query_opt_param(&req, "min").unwrap();
    assert_eq!(min, Some(i64::MIN));
    let over: Result<Option<i64>, MalformedArg> = get_query_opt_param(&req, "over");
    assert!(over.is_err());
    let over32: Result<Option<i32>, MalformedArg> = get_query_opt_param(&req, "max");
    assert!(over32.is_err());
    let u_over: Result<Option<u64>, MalformedArg> = get_query_opt_param(&req, "min");
    assert!(u_over.is_err());
}

#[test]
fn header_lookup_is_case_insensitive() {
    let req = req_with_headers(vec![("host", b"example.com")]);
    assert_eq!(get_header(&req, "Host"), Some("example.com".to_string()));
    assert_eq!(get_header(&req, "HOST"), Some("example.com".to_string()));
    assert_eq!(get_header(&req, "accept"), None);
}

#[test]
fn header_empty_value_is_passed_over() {
    let req = req_with_headers(vec![("x-tag", b""), ("x-tag", b"second")]);
    assert_eq!(get_header(&req, "X-Tag"), Some("second".to_string()));
}

#[test]
fn header_invalid_text_yields_none() {
    let req = req_with_headers(vec![("x-raw", &[0xff, 0xfe][..]), ("x-raw", b"later")]);
    assert_eq!(get_header(&req, "x-raw"), None);
}

#[test]
fn header_first_match_wins() {
    let req = req_with_headers(vec![("x-tag", b"first"), ("x-tag", b"second")]);
    assert_eq!(get_header(&req, "x-tag"), Some("first".to_string()));
}

#[test]
fn common_headers_snapshot() {
    let req = req_with_headers(vec![
        ("user-agent", b"curl/8"),
        ("x-api-key", b"k1"),
        ("host", b"example.com"),
    ]);
    let ch = get_common_headers(&req);
    assert_eq!(ch.user_agent, Some("curl/8".to_string()));
    assert_eq!(ch.x_api_key, Some("k1".to_string()));
    assert_eq!(ch.host, Some("example.com".to_string()));
    assert_eq!(ch.accept, None);
}

#[test]
fn response_200_message() {
    let resp = build_response_200_message("all good").unwrap();
    assert_eq!(resp.status, 200);
    assert!(resp.headers.is_empty());
    assert_eq!(resp.body, "all good");
}

#[test]
fn response_json_sets_status_and_content_type() {
    let resp = build_response_json(&vec![1i64, 2, 3]).unwrap();
    assert_eq!(resp.status, 200);
    assert_eq!(
        resp.headers,
        vec![("Content-Type".to_string(), "application/json".to_string())]
    );
    assert_eq!(resp.body, "[1,2,3]");
}

#[test]
fn response_json_404_none_is_item_not_found() {
    let resp = build_response_json_404::<i64>(&None).unwrap();
    assert_eq!(resp.status, 404);
    assert_eq!(
        resp.headers,
        vec![("Content-Type".to_string(), "application/json".to_string())]
    );
    assert_eq!(resp.body, "ITEM NOT FOUND");
}

#[test]
fn response_json_404_some_behaves_as_json() {
    let resp = build_response_json_404(&Some(7i64)).unwrap();
    assert_eq!(resp.status, 200);
    assert_eq!(resp.body, "7");
}

#[test]
fn response_json_cors_adds_origin_header() {
    let resp = build_response_json_cors(&vec![1i64]).unwrap();
    assert_eq!(resp.status, 200);
    assert_eq!(
        resp.headers,
        vec![
            ("Content-Type".to_string(), "application/json".to_string()),
            ("Access-Control-Allow-Origin".to_string(), "*".to_string()),
        ]
    );
    assert_eq!(resp.body, "[1]");
}

#[test]
fn preflight_carries_all_three_cors_headers() {
    let resp = preflight_cors();
    assert_eq!(resp.status, 200);
    assert_eq!(
        resp.headers,
        vec![
            ("Access-Control-Allow-Origin".to_string(), "*".to_string()),
            ("Access-Control-Allow-Headers".to_string(), "*".to_string()),
            (
                "Access-Control-Allow-Methods".to_string(),
                "POST, GET, OPTIONS".to_string()
            ),
        ]
    );
    assert_eq!(resp.body, "");
}

#[test]
fn bad_request_renders_the_error() {
    let err = MissingArg { missing_key: "id".to_string() };
    let resp = bad_request_resp(&err).unwrap();
    assert_eq!(resp.status, 400);
    assert!(resp.headers.is_empty());
    assert!(resp.body.starts_with("BAD_REQUEST: "));
    assert!(resp.body.contains("id"));
}

#[test]
fn nginx_real_ip_skips_internal_addresses() {
    assert_eq!(
        nginx_real_ip_only("104.218.65.97, 172.69.59.58"),
        Some("104.218.65.97".to_string())
    );
    assert_eq!(nginx_real_ip_only("172.69.59.58"), None);
    assert_eq!(
        nginx_real_ip_only("172.1.1.1, 9.9.9.9, 8.8.8.8"),
        Some("9.9.9.9".to_string())
    );
}

#[test]
fn nginx_get_ip_falls_back_to_sentinel() {
    let with_header = req_with_headers(vec![("x-forwarded-for", b"104.218.65.97, 172.69.59.58")]);
    assert_eq!(nginx_get_ip(&with_header), "104.218.65.97");
    let internal_only = req_with_headers(vec![("x-forwarded-for", b"172.69.59.58")]);
    assert_eq!(nginx_get_ip(&internal_only), UNKNOWN_IP);
    let absent = req_with_headers(vec![]);
    assert_eq!(nginx_get_ip(&absent), "?.?.?.?");
}

#[test]
fn error_messages_render_their_fields() {
    let missing = MissingArg { missing_key: "user_id".to_string() };
    assert_eq!(missing.message(), "Required argument 'user_id' not found");
    let malformed = MalformedArg::new("user_id", "abc", "i64");
    assert_eq!(
        malformed.message(),
        "Could not convert value 'abc' for key 'user_id' to i64 type"
    );
    assert_eq!(
        ArgError::Malformed(malformed).message(),
        "Could not convert value 'abc' for key 'user_id' to i64 type"
    );
    assert_eq!(PK404 {}.message(), "PK404 error: Primary Key not found");
}
