//! Outbound JSON request construction: API-key resolution, the request
//! descriptions for GET/POST/PUT calls, and the payload codec steps. The
//! transport performs the described call and hands the response body bytes
//! back for decoding.

use vstd::prelude::*;

use crate::err::HypErr;

verus! {

/// Resolve the api key to attach to an outbound call: an explicitly
/// provided key wins; otherwise the value of the `X_API_KEY` environment
/// variable, as read by the caller at its boundary; otherwise the empty
/// string. Resolution never fails: an absent key degrades to `""`.
pub fn get_api_key(optkey: Option<&str>, env_key: Option<&str>) -> (r: String)
    ensures
        optkey matches Some(k) ==> r@ == k@,
        optkey is None ==> (env_key matches Some(e) ==> r@ == e@),
        optkey is None && env_key is None ==> r@ == Seq::<char>::empty(),
{
    match optkey {
        Some(key) => key.to_owned(),
        None => match env_key {
            Some(key) => key.to_owned(),
            None => String::new(),
        },
    }
}

/// The method of an outbound request.
#[derive(Debug, Clone, Copy, PartialEq, Eq, Structural)]
pub enum Method {
    Get,
    Post,
    Put,
}

/// An outbound request description: method, URL, headers and body, ready
/// for a transport to perform.
pub struct OutboundRequest {
    pub method: Method,
    pub url: String,
    /// Header (name, value) pairs, in the order they should be sent.
    pub headers: Vec<(String, String)>,
    /// The request body; empty for bodyless calls.
    pub body: String,
}

impl OutboundRequest {
    /// The header list as a sequence of (name, value) character sequences.
    pub open spec fn headers_seq(&self) -> Seq<(Seq<char>, Seq<char>)> {
        self.headers.deep_view()
    }
}

/// Describe a GET call: JSON accepted back, the resolved api key attached,
/// empty body.
pub fn build_get_request(url: &str, x_api_key: String) -> (r: OutboundRequest)
    ensures
        r.method is Get,
        r.url@ == url@,
        r.headers_seq() == seq![("accept"@, "application/json"@), ("X-Api-Key"@, x_api_key@)],
        r.body@ == Seq::<char>::empty(),
{
    let mut headers: Vec<(String, String)> = Vec::new();
    headers.push(("accept".to_owned(), "application/json".to_owned()));
    headers.push(("X-Api-Key".to_owned(), x_api_key));
    let r = OutboundRequest { method: Method::Get, url: url.to_owned(), headers, body: String::new() };
    proof {
        assert(r.headers_seq() =~= seq![
            ("accept"@, "application/json"@),
            ("X-Api-Key"@, r.headers@[1].1@),
        ]);
    }
    r
}

/// Describe a PUT call: the same shape as a GET, with the PUT method.
pub fn build_put_request(url: &str, x_api_key: String) -> (r: OutboundRequest)
    ensures
        r.method is Put,
        r.url@ == url@,
        r.headers_seq() == seq![("accept"@, "application/json"@), ("X-Api-Key"@, x_api_key@)],
        r.body@ == Seq::<char>::empty(),
{
    let mut headers: Vec<(String, String)> = Vec::new();
    headers.push(("accept".to_owned(), "application/json".to_owned()));
    headers.push(("X-Api-Key".to_owned(), x_api_key));
    let r = OutboundRequest { method: Method::Put, url: url.to_owned(), headers, body: String::new() };
    proof {
        assert(r.headers_seq() =~= seq![
            ("accept"@, "application/json"@),
            ("X-Api-Key"@, r.headers@[1].1@),
        ]);
    }
    r
}

/// Describe a POST call carrying already-encoded JSON text. The explicit
/// `Content-type` header is required: some receiving servers silently
/// truncate the decoded structure to its first field without it.
pub fn build_post_request(url: &str, body_json: String, x_api_key: String) -> (r: OutboundRequest)
    ensures
        r.method is Post,
        r.url@ == url@,
        r.headers_seq() == seq![
            ("accept"@, "application/json"@),
            ("X-Api-Key"@, x_api_key@),
            ("Content-type"@, "application/json; charset=UTF-8"@),
        ],
        r.body@ == body_json@,
{
    let mut headers: Vec<(String, String)> = Vec::new();
    headers.push(("accept".to_owned(), "application/json".to_owned()));
    headers.push(("X-Api-Key".to_owned(), x_api_key));
    headers.push(("Content-type".to_owned(), "application/json; charset=UTF-8".to_owned()));
    let r = OutboundRequest { method: Method::Post, url: url.to_owned(), headers, body: body_json };
    proof {
        assert(r.headers_seq() =~= seq![
            ("accept"@, "application/json"@),
            ("X-Api-Key"@, r.headers@[1].1@),
            ("Content-type"@, "application/json; charset=UTF-8"@),
        ]);
    }
    r
}

/// Serialize an outbound payload to JSON text; which payloads encode is the
/// payload type's own affair, and a failure is the codec's error.
pub fn encode_payload<U: serde::Serialize>(payload: &U) -> (r: Result<String, HypErr>)
    ensures
        r matches Err(e) ==> e is SerdeJSON,
{
    match crate::codec::to_json_string(payload) {
        Ok(json) => Ok(json),
        Err(e) => Err(HypErr::SerdeJSON(e)),
    }
}

/// Deserialize a response body into the expected payload; which byte
/// strings decode is the payload type's own affair, and a failure is the
/// codec's error.
pub fn decode_payload<T: serde::de::DeserializeOwned>(bytes: &[u8]) -> (r: Result<T, HypErr>)
    ensures
        r matches Err(e) ==> e is SerdeJSON,
{
    match crate::codec::from_json_slice::<T>(bytes) {
        Ok(v) => Ok(v),
        Err(e) => Err(HypErr::SerdeJSON(e)),
    }
}

} // verus!
