//! Inbound-request accessors and response builders: header lookup, query
//! extraction, JSON/CORS response construction, and the reverse-proxy
//! real-IP heuristic.

use vstd::prelude::*;
use vstd::string::StrSliceExecFns;
use vstd::string::StringExecFns;
use vstd::utf8::valid_utf8;
use vstd::utf8::decode_utf8;

use crate::http_data::RequestData;
use crate::http_data::HttpResponse;
use crate::query::QueryMap;
use crate::params::FromParam;

verus! {

// ---------------------------------------------------------------------------
// Case-insensitive header-name matching
// ---------------------------------------------------------------------------

/// ASCII lowercasing of a single character; non-ASCII characters and
/// non-letters are unchanged. Header names are ASCII by the HTTP grammar, so
/// this is the case folding that header matching needs.
pub open spec fn lower_char(c: char) -> char {
    if 'A' <= c && c <= 'Z' {
        (((c as u32) + 32) as u32) as char
    } else {
        c
    }
}

/// ASCII lowercasing of a character sequence.
pub open spec fn lower_seq(s: Seq<char>) -> Seq<char> {
    s.map_values(|c: char| lower_char(c))
}

/// Lowercase one character (ASCII letters only; others unchanged).
fn to_lower(c: char) -> (r: char)
    ensures
        r == lower_char(c),
{
    if 'A' <= c && c <= 'Z' {
        let b: u8 = c as u8;
        let lb: u8 = b + 32;
        lb as char
    } else {
        c
    }
}

/// Does `k` equal the ASCII-lowercased form of `name`?
fn eq_lowered(k: &str, name: &str) -> (r: bool)
    ensures
        r == (k@ == lower_seq(name@)),
{
    let kn = k.unicode_len();
    let nn = name.unicode_len();
    if kn != nn {
        assert(lower_seq(name@).len() == name@.len());
        return false;
    }
    let mut i: usize = 0;
    while i < nn
        invariant
            i <= nn,
            kn == nn,
            kn == k@.len(),
            nn == name@.len(),
            forall|j: int| 0 <= j < i ==> k@[j] == lower_char(name@[j]),
        decreases nn - i,
    {
        let kc = k.get_char(i);
        let nc = to_lower(name.get_char(i));
        if kc != nc {
            assert(lower_seq(name@)[i as int] == lower_char(name@[i as int]));
            return false;
        }
        i = i + 1;
    }
    assert(k@ =~= lower_seq(name@));
    true
}

// ---------------------------------------------------------------------------
// Header lookup
// ---------------------------------------------------------------------------

/// Relies on `String::from_utf8`: it returns `Ok` exactly when the bytes are
/// a valid UTF-8 encoding, and the resulting string holds their decoding.
#[verifier::external_body]
fn utf8_to_string(bytes: &Vec<u8>) -> (r: Option<String>)
    ensures
        r is Some <==> valid_utf8(bytes@),
        r matches Some(s) ==> s@ == decode_utf8(bytes@),
{
    String::from_utf8(bytes.clone()).ok()
}

/// What scanning the header list for `target` yields: the first header whose
/// name equals `target` and whose value is non-empty valid text. A matching
/// header with an empty value is passed over; one whose value is not valid
/// text ends the scan with no result.
pub open spec fn header_lookup(hs: Seq<(Seq<char>, Seq<u8>)>, target: Seq<char>) -> Option<
    Seq<char>,
>
    decreases hs.len(),
{
    if hs.len() == 0 {
        None
    } else if hs.first().0 == target {
        if !valid_utf8(hs.first().1) {
            None
        } else if decode_utf8(hs.first().1).len() > 0 {
            Some(decode_utf8(hs.first().1))
        } else {
            header_lookup(hs.drop_first(), target)
        }
    } else {
        header_lookup(hs.drop_first(), target)
    }
}

/// Look for the specified header in a given request, returning `Some(value)`
/// if a header of that name (matched case-insensitively) carries non-empty
/// valid text. "Absent", "present but empty" and "present but not valid
/// text" all yield `None` and are indistinguishable to the caller.
pub fn get_header(req: &RequestData, header: &str) -> (r: Option<String>)
    ensures
        r matches Some(v) ==> header_lookup(req.headers_seq(), lower_seq(header@)) == Some(v@),
        r is None ==> header_lookup(req.headers_seq(), lower_seq(header@)) is None,
{
    let ghost target = lower_seq(header@);
    let ghost whole = req.headers_seq();
    let n = req.headers.len();
    assert(whole.skip(0) =~= whole);
    let mut i: usize = 0;
    while i < n
        invariant
            i <= n,
            n == req.headers.len(),
            whole == req.headers_seq(),
            target == lower_seq(header@),
            whole.len() == n,
            header_lookup(whole, target) == header_lookup(whole.skip(i as int), target),
        decreases n - i,
    {
        proof {
            assert(whole.skip(i as int).first() == whole[i as int]);
            assert(whole.skip(i as int).drop_first() =~= whole.skip(i + 1));
            assert(whole[i as int].0 == req.headers@[i as int].0@);
            assert(whole[i as int].1 =~= req.headers@[i as int].1@);
        }
        let name_matches = eq_lowered(req.headers[i].0.as_str(), header);
        if name_matches {
            match utf8_to_string(&req.headers[i].1) {
                Some(val) => {
                    if !val.as_str().is_empty() {
                        assert(header_lookup(whole.skip(i as int), target) == Some(val@));
                        return Some(val);
                    }
                    assert(header_lookup(whole.skip(i as int), target) == header_lookup(
                        whole.skip(i + 1),
                        target,
                    ));
                },
                None => {
                    assert(header_lookup(whole.skip(i as int), target) is None);
                    return None;
                },
            }
        } else {
            assert(header_lookup(whole.skip(i as int), target) == header_lookup(
                whole.skip(i + 1),
                target,
            ));
        }
        i = i + 1;
    }
    assert(whole.skip(n as int) =~= Seq::empty());
    None
}

// ---------------------------------------------------------------------------
// Query extraction
// ---------------------------------------------------------------------------

/// The URL string handed to the parser: the request URI itself, or, when the
/// URI is a bare path, the URI prefixed with a placeholder scheme and host
/// (the parser takes only fully qualified URLs).
pub open spec fn full_url_seq(uri: Seq<char>) -> Seq<char> {
    if uri.len() > 0 && uri[0] == '/' {
        "http://whatever.com"@ + uri
    } else {
        uri
    }
}

/// The query mapping a request URI denotes: the decoded pairs of its query
/// string, later duplicates overriding earlier ones, and the empty mapping
/// when the URL does not parse.
pub open spec fn query_map_of(uri: Seq<char>) -> Map<Seq<char>, Seq<char>> {
    match crate::query::url_query_pairs(full_url_seq(uri)) {
        Some(ps) => crate::query::pairs_to_map(ps),
        None => Map::empty(),
    }
}

/// Gather the query parameters of a request (i.e. `path?key1=val1&key2=val2`
/// etc.) into a [`QueryMap`]. A URI that does not parse as a URL yields the
/// empty mapping rather than an error.
pub fn get_query(req: &RequestData) -> (r: QueryMap)
    ensures
        r@ == query_map_of(req.uri@),
{
    let u = req.uri.as_str();
    let url_string: String = if u.unicode_len() > 0 && u.get_char(0) == '/' {
        String::from_str("http://whatever.com").concat(u)
    } else {
        req.uri.clone()
    };
    assert(url_string@ == full_url_seq(req.uri@));
    match crate::query::parse_url_query_pairs(url_string.as_str()) {
        None => QueryMap::empty(),
        Some(pairs) => {
            let ghost dv = pairs.deep_view();
            let mut m = QueryMap::empty();
            proof {
                assert(dv.take(0) =~= Seq::<(Seq<char>, Seq<char>)>::empty());
            }
            let n = pairs.len();
            let mut i: usize = 0;
            while i < n
                invariant
                    i <= n,
                    n == pairs.len(),
                    dv == pairs.deep_view(),
                    m@ == crate::query::pairs_to_map(dv.take(i as int)),
                decreases n - i,
            {
                proof {
                    assert(dv.take(i + 1).drop_last() =~= dv.take(i as int));
                    assert(dv.take(i + 1).last() == dv[i as int]);
                    assert(dv[i as int].0 == pairs@[i as int].0@);
                    assert(dv[i as int].1 == pairs@[i as int].1@);
                }
                let k = pairs[i].0.clone();
                let v = pairs[i].1.clone();
                m.insert(k, v);
                i = i + 1;
            }
            proof {
                assert(dv.take(n as int) =~= dv);
            }
            m
        },
    }
}

// ---------------------------------------------------------------------------
// Argument errors (server-side copies)
// ---------------------------------------------------------------------------

/// A required query argument (i.e. "&key=val" etc.) was not provided.
#[derive(Debug)]
pub struct MissingArg {
    /// The key that was missing.
    pub missing_key: String,
}

impl MissingArg {
    /// Human-readable rendering of this error.
    pub fn message(&self) -> (r: String)
        ensures
            r@ == "Required argument '"@ + self.missing_key@ + "' not found"@,
    {
        let r = String::from_str("Required argument '")
            .concat(self.missing_key.as_str())
            .concat("' not found");
        r
    }
}

/// A query argument (i.e. "&key=val" etc.) was provided but could not be
/// converted to the desired type.
#[derive(Debug)]
pub struct MalformedArg {
    /// The key that was provided.
    pub key: String,
    /// The provided value for the key.
    pub value: String,
    /// The type of value that was desired.
    pub dtype: String,
}

impl MalformedArg {
    pub fn new(key: &str, value: &str, dtype: &str) -> (r: Self)
        ensures
            r.key@ == key@,
            r.value@ == value@,
            r.dtype@ == dtype@,
    {
        let key = key.to_owned();
        let value = value.to_owned();
        let dtype = dtype.to_owned();
        MalformedArg { key, value, dtype }
    }

    /// Human-readable rendering of this error.
    pub fn message(&self) -> (r: String)
        ensures
            r@ == "Could not convert value '"@ + self.value@ + "' for key '"@ + self.key@
                + "' to "@ + self.dtype@ + " type"@,
    {
        let r = String::from_str("Could not convert value '")
            .concat(self.value.as_str())
            .concat("' for key '")
            .concat(self.key.as_str())
            .concat("' to ")
            .concat(self.dtype.as_str())
            .concat(" type");
        r
    }
}

/// Either kind of query-argument failure: a required key that was absent, or
/// a present value that failed conversion.
#[derive(Debug)]
pub enum ArgError {
    Missing(MissingArg),
    Malformed(MalformedArg),
}

impl ArgError {
    /// Human-readable rendering: the message of the underlying variant.
    pub fn message(&self) -> (r: String)
        ensures
            self matches ArgError::Missing(e) ==>
                r@ == "Required argument '"@ + e.missing_key@ + "' not found"@,
            self matches ArgError::Malformed(e) ==>
                r@ == "Could not convert value '"@ + e.value@ + "' for key '"@ + e.key@
                    + "' to "@ + e.dtype@ + " type"@,
    {
        match self {
            ArgError::Missing(e) => e.message(),
            ArgError::Malformed(e) => e.message(),
        }
    }
}

impl From<MissingArg> for ArgError {
    fn from(err: MissingArg) -> (r: Self) {
        ArgError::Missing(err)
    }
}

impl vstd::std_specs::convert::FromSpecImpl<MissingArg> for ArgError {
    open spec fn obeys_from_spec() -> bool {
        true
    }

    open spec fn from_spec(err: MissingArg) -> Self {
        ArgError::Missing(err)
    }
}

impl From<MalformedArg> for ArgError {
    fn from(err: MalformedArg) -> (r: Self) {
        ArgError::Malformed(err)
    }
}

impl vstd::std_specs::convert::FromSpecImpl<MalformedArg> for ArgError {
    open spec fn obeys_from_spec() -> bool {
        true
    }

    open spec fn from_spec(err: MalformedArg) -> Self {
        ArgError::Malformed(err)
    }
}

/// The item to be returned could not be found (e.g. a primary key missing
/// from a database).
#[derive(Debug)]
pub struct PK404 {}

impl PK404 {
    /// Human-readable rendering of this error.
    pub fn message(&self) -> (r: String)
        ensures
            r@ == "PK404 error: Primary Key not found"@,
    {
        String::from_str("PK404 error: Primary Key not found")
    }
}

/// Everything that can go wrong while responding to a request: argument
/// extraction, the JSON codec, and the transport's own error types, each
/// carried losslessly.
#[derive(Debug)]
pub enum ServerError {
    Arg(ArgError),
    SerdeJSON(serde_json::Error),
    Hyper(hyper::Error),
    HyperHTTP(hyper::http::Error),
}

impl From<ArgError> for ServerError {
    fn from(err: ArgError) -> (r: Self) {
        ServerError::Arg(err)
    }
}

impl vstd::std_specs::convert::FromSpecImpl<ArgError> for ServerError {
    open spec fn obeys_from_spec() -> bool {
        true
    }

    open spec fn from_spec(err: ArgError) -> Self {
        ServerError::Arg(err)
    }
}

impl From<serde_json::Error> for ServerError {
    fn from(err: serde_json::Error) -> (r: Self) {
        ServerError::SerdeJSON(err)
    }
}

impl vstd::std_specs::convert::FromSpecImpl<serde_json::Error> for ServerError {
    open spec fn obeys_from_spec() -> bool {
        true
    }

    open spec fn from_spec(err: serde_json::Error) -> Self {
        ServerError::SerdeJSON(err)
    }
}

impl From<hyper::Error> for ServerError {
    fn from(err: hyper::Error) -> (r: Self) {
        ServerError::Hyper(err)
    }
}

impl vstd::std_specs::convert::FromSpecImpl<hyper::Error> for ServerError {
    open spec fn obeys_from_spec() -> bool {
        true
    }

    open spec fn from_spec(err: hyper::Error) -> Self {
        ServerError::Hyper(err)
    }
}

impl From<hyper::http::Error> for ServerError {
    fn from(err: hyper::http::Error) -> (r: Self) {
        ServerError::HyperHTTP(err)
    }
}

impl vstd::std_specs::convert::FromSpecImpl<hyper::http::Error> for ServerError {
    open spec fn obeys_from_spec() -> bool {
        true
    }

    open spec fn from_spec(err: hyper::http::Error) -> Self {
        ServerError::HyperHTTP(err)
    }
}

// ---------------------------------------------------------------------------
// Typed parameter extraction
// ---------------------------------------------------------------------------

/// Look for the value of a query parameter and convert it to an optional
/// value of a type implementing [`FromParam`]. An absent key is a success
/// (`None`); a present value that fails conversion is a `MalformedArg`
/// carrying the key, the raw value, and the desired type's name. An
/// empty-string value for a present key is handed to the conversion like
/// any other value, not treated as absent.
pub fn get_query_opt_param<T: FromParam>(req: &RequestData, key: &str) -> (r: Result<
    Option<T>,
    MalformedArg,
>)
    ensures
        !query_map_of(req.uri@).contains_key(key@) ==> (r matches Ok(x) && x is None),
        query_map_of(req.uri@).contains_key(key@) && T::param_ok(query_map_of(req.uri@)[key@])
            ==> (r matches Ok(x) && x matches Some(v) && T::param_rel(
            query_map_of(req.uri@)[key@],
            v,
        )),
        query_map_of(req.uri@).contains_key(key@) && !T::param_ok(query_map_of(req.uri@)[key@])
            ==> (r matches Err(e) && e.key@ == key@ && e.value@ == query_map_of(req.uri@)[key@]
            && e.dtype@ == T::dtype_name_spec()),
{
    let hm = get_query(req);
    let s = match hm.get(key) {
        Some(val) => val,
        None => {
            return Ok(None);
        },
    };
    match T::from_param(s.as_str()) {
        Some(x) => Ok(Some(x)),
        None => {
            let dtype = T::dtype_name();
            Err(MalformedArg::new(key, s.as_str(), dtype.as_str()))
        },
    }
}

/// Look for the value of a query parameter and convert it to a value of a
/// type implementing [`FromParam`]. An absent key is a `MissingArg`; a
/// present value that fails conversion is a `MalformedArg`, both wrapped in
/// [`ArgError`].
pub fn get_query_param<T: FromParam>(req: &RequestData, key: &str) -> (r: Result<T, ArgError>)
    ensures
        !query_map_of(req.uri@).contains_key(key@) ==> (r matches Err(e) && e matches
            ArgError::Missing(m) && m.missing_key@ == key@),
        query_map_of(req.uri@).contains_key(key@) && T::param_ok(query_map_of(req.uri@)[key@])
            ==> (r matches Ok(v) && T::param_rel(query_map_of(req.uri@)[key@], v)),
        query_map_of(req.uri@).contains_key(key@) && !T::param_ok(query_map_of(req.uri@)[key@])
            ==> (r matches Err(e) && e matches ArgError::Malformed(m) && m.key@ == key@
            && m.value@ == query_map_of(req.uri@)[key@] && m.dtype@ == T::dtype_name_spec()),
{
    match get_query_opt_param::<T>(req, key) {
        Ok(Some(val)) => Ok(val),
        Ok(None) => Err(ArgError::Missing(MissingArg { missing_key: key.to_owned() })),
        Err(e) => Err(ArgError::Malformed(e)),
    }
}

// ---------------------------------------------------------------------------
// Common headers
// ---------------------------------------------------------------------------

/// A fixed-shape snapshot of the most frequently used request headers, each
/// absent when the request does not carry it (or carries it empty or as
/// invalid text).
#[derive(Debug)]
pub struct CommonHeaders {
    pub user_agent: Option<String>,
    pub x_api_key: Option<String>,
    pub host: Option<String>,
    pub accept: Option<String>,
}

/// What one field of [`CommonHeaders`] must hold: the header-lookup result
/// for `target`, viewed as an optional character sequence.
pub open spec fn matches_lookup(
    field: Option<String>,
    hs: Seq<(Seq<char>, Seq<u8>)>,
    target: Seq<char>,
) -> bool {
    match field {
        Some(v) => header_lookup(hs, target) == Some(v@),
        None => header_lookup(hs, target) is None,
    }
}

/// Build the [`CommonHeaders`] snapshot of a request by four header lookups.
pub fn get_common_headers(req: &RequestData) -> (r: CommonHeaders)
    ensures
        matches_lookup(r.user_agent, req.headers_seq(), lower_seq("user-agent"@)),
        matches_lookup(r.x_api_key, req.headers_seq(), lower_seq("X-Api-Key"@)),
        matches_lookup(r.host, req.headers_seq(), lower_seq("Host"@)),
        matches_lookup(r.accept, req.headers_seq(), lower_seq("Accept"@)),
{
    let user_agent = get_header(req, "user-agent");
    let x_api_key = get_header(req, "X-Api-Key");
    let host = get_header(req, "Host");
    let accept = get_header(req, "Accept");
    CommonHeaders { user_agent, x_api_key, host, accept }
}

// ---------------------------------------------------------------------------
// Response builders
// ---------------------------------------------------------------------------

/// Build a simple 200 response carrying a plain text message and no headers.
/// Construction cannot fail; the `Result` keeps the shape handler code
/// propagates.
pub fn build_response_200_message(message: &str) -> (r: Result<HttpResponse, ServerError>)
    ensures
        r matches Ok(resp) && resp.status == 200 && resp.headers@.len() == 0 && resp.body@
            == message@,
{
    Ok(HttpResponse { status: 200, headers: Vec::new(), body: message.to_owned() })
}

/// Build a 200 response around already-encoded JSON text, adding the
/// `application/json` content type.
pub fn response_json_from(json: String) -> (r: HttpResponse)
    ensures
        r.status == 200,
        r.headers_seq() == seq![("Content-Type"@, "application/json"@)],
        r.body@ == json@,
{
    let mut headers: Vec<(String, String)> = Vec::new();
    headers.push(("Content-Type".to_owned(), "application/json".to_owned()));
    let r = HttpResponse { status: 200, headers, body: json };
    proof {
        assert(r.headers_seq() =~= seq![("Content-Type"@, "application/json"@)]);
    }
    r
}

/// Build a response out of any serializable payload, adding the
/// `application/json` content type. A payload the codec rejects yields the
/// codec's error; no partial response is returned.
pub fn build_response_json<T: serde::Serialize>(resp_payload: &T) -> (r: Result<
    HttpResponse,
    ServerError,
>)
    ensures
        r matches Ok(resp) ==> resp.status == 200 && resp.headers_seq() == seq![
            ("Content-Type"@, "application/json"@),
        ],
        r matches Err(e) ==> e is SerdeJSON,
{
    match crate::codec::to_json_string(resp_payload) {
        Ok(json) => Ok(response_json_from(json)),
        Err(e) => Err(ServerError::SerdeJSON(e)),
    }
}

/// Build a response out of any serializable payload, returning a 404 with
/// the fixed body `ITEM NOT FOUND` if no payload was provided.
pub fn build_response_json_404<T: serde::Serialize>(opt_payload: &Option<T>) -> (r: Result<
    HttpResponse,
    ServerError,
>)
    ensures
        opt_payload is None ==> (r matches Ok(resp) && resp.status == 404 && resp.headers_seq()
            == seq![("Content-Type"@, "application/json"@)] && resp.body@ == "ITEM NOT FOUND"@),
        opt_payload is Some ==> (r matches Ok(resp) ==> resp.status == 200 && resp.headers_seq()
            == seq![("Content-Type"@, "application/json"@)]),
        r matches Err(e) ==> opt_payload is Some && e is SerdeJSON,
{
    match opt_payload {
        Some(resp_payload) => build_response_json(resp_payload),
        None => {
            let mut headers: Vec<(String, String)> = Vec::new();
            headers.push(("Content-Type".to_owned(), "application/json".to_owned()));
            let resp = HttpResponse {
                status: 404,
                headers,
                body: "ITEM NOT FOUND".to_owned(),
            };
            proof {
                assert(resp.headers_seq() =~= seq![("Content-Type"@, "application/json"@)]);
            }
            Ok(resp)
        },
    }
}

/// Build a 200 response around already-encoded JSON text, adding the
/// `application/json` content type and the permissive CORS origin header.
pub fn response_json_cors_from(json: String) -> (r: HttpResponse)
    ensures
        r.status == 200,
        r.headers_seq() == seq![
            ("Content-Type"@, "application/json"@),
            ("Access-Control-Allow-Origin"@, "*"@),
        ],
        r.body@ == json@,
{
    let mut headers: Vec<(String, String)> = Vec::new();
    headers.push(("Content-Type".to_owned(), "application/json".to_owned()));
    headers.push(("Access-Control-Allow-Origin".to_owned(), "*".to_owned()));
    let r = HttpResponse { status: 200, headers, body: json };
    proof {
        assert(r.headers_seq() =~= seq![
            ("Content-Type"@, "application/json"@),
            ("Access-Control-Allow-Origin"@, "*"@),
        ]);
    }
    r
}

/// Build a response out of any serializable payload, adding the
/// `application/json` content type and the permissive CORS origin header.
pub fn build_response_json_cors<T: serde::Serialize>(resp_payload: &T) -> (r: Result<
    HttpResponse,
    ServerError,
>)
    ensures
        r matches Ok(resp) ==> resp.status == 200 && resp.headers_seq() == seq![
            ("Content-Type"@, "application/json"@),
            ("Access-Control-Allow-Origin"@, "*"@),
        ],
        r matches Err(e) ==> e is SerdeJSON,
{
    match crate::codec::to_json_string(resp_payload) {
        Ok(json) => Ok(response_json_cors_from(json)),
        Err(e) => Err(ServerError::SerdeJSON(e)),
    }
}

/// The response to a CORS preflight: status 200, the three permissive CORS
/// headers with their fixed literal values, and an empty body, independent
/// of anything the inbound request carried. (The caller must still drain the
/// inbound body before replying; that is the transport's concern.)
pub fn preflight_cors() -> (r: HttpResponse)
    ensures
        r.status == 200,
        r.headers_seq() == seq![
            ("Access-Control-Allow-Origin"@, "*"@),
            ("Access-Control-Allow-Headers"@, "*"@),
            ("Access-Control-Allow-Methods"@, "POST, GET, OPTIONS"@),
        ],
        r.body@ == Seq::<char>::empty(),
{
    let mut headers: Vec<(String, String)> = Vec::new();
    headers.push(("Access-Control-Allow-Origin".to_owned(), "*".to_owned()));
    headers.push(("Access-Control-Allow-Headers".to_owned(), "*".to_owned()));
    headers.push(("Access-Control-Allow-Methods".to_owned(), "POST, GET, OPTIONS".to_owned()));
    let r = HttpResponse { status: 200, headers, body: String::new() };
    proof {
        assert(r.headers_seq() =~= seq![
            ("Access-Control-Allow-Origin"@, "*"@),
            ("Access-Control-Allow-Headers"@, "*"@),
            ("Access-Control-Allow-Methods"@, "POST, GET, OPTIONS"@),
        ]);
    }
    r
}

/// Relies on the `format!` macro with `{:?}`: renders any `Debug` value as
/// text. What text a given value renders to is left entirely open.
#[verifier::external_body]
fn debug_text<T: core::fmt::Debug>(value: &T) -> String {
    format!("{:?}", value)
}

/// Build a 400 response whose body is the fixed `BAD_REQUEST: ` prefix
/// followed by the given rendering of the offending error.
pub fn bad_request_from(msg: &str) -> (r: HttpResponse)
    ensures
        r.status == 400,
        r.headers@.len() == 0,
        r.body@ == "BAD_REQUEST: "@ + msg@,
{
    let body = String::from_str("BAD_REQUEST: ").concat(msg);
    HttpResponse { status: 400, headers: Vec::new(), body }
}

/// Convert any error that can be rendered with `Debug` to a 400 response.
/// Construction cannot fail; the `Result` keeps the shape handler code
/// propagates.
pub fn bad_request_resp<T: core::fmt::Debug>(err: &T) -> (r: Result<HttpResponse, ServerError>)
    ensures
        r matches Ok(resp) && resp.status == 400 && resp.headers@.len() == 0 && (exists|
            s: Seq<char>,
        |
            resp.body@ == "BAD_REQUEST: "@ + s),
{
    let rendered = debug_text(err);
    let resp = bad_request_from(rendered.as_str());
    proof {
        assert(resp.body@ == "BAD_REQUEST: "@ + rendered@);
    }
    Ok(resp)
}

// ---------------------------------------------------------------------------
// Reverse-proxy real-IP resolution
// ---------------------------------------------------------------------------

/// Does the separator `", "` stand at position `i` of `s`?
pub open spec fn sep_at(s: Seq<char>, i: int) -> bool {
    0 <= i && i + 2 <= s.len() && s[i] == ',' && s[i + 1] == ' '
}

/// The position of the first `", "` separator in `s`, if any.
pub open spec fn find_sep(s: Seq<char>) -> Option<int>
    decreases s.len(),
{
    if s.len() < 2 {
        None
    } else if s[0] == ',' && s[1] == ' ' {
        Some(0)
    } else {
        match find_sep(s.drop_first()) {
            Some(i) => Some(i + 1),
            None => None,
        }
    }
}

/// `find_sep` finds exactly the least separator position, when one exists.
proof fn lemma_find_sep(s: Seq<char>)
    ensures
        find_sep(s) matches Some(k) ==> 0 <= k && k + 2 <= s.len() && sep_at(s, k) && (forall|
            j: int,
        | 0 <= j < k ==> !sep_at(s, j)),
        find_sep(s) is None ==> forall|j: int| !sep_at(s, j),
    decreases s.len(),
{
    if s.len() >= 2 && !(s[0] == ',' && s[1] == ' ') {
        let d = s.drop_first();
        lemma_find_sep(d);
        assert forall|j: int| 1 <= j && sep_at(s, j) implies sep_at(d, j - 1) by {
            assert(d[j - 1] == s[j]);
            assert(d[j] == s[j + 1]);
        }
        assert forall|j: int| 0 <= j && sep_at(d, j) implies sep_at(s, j + 1) by {
            assert(d[j] == s[j + 1]);
            assert(d[j + 1] == s[j + 2]);
        }
    }
}

/// Does `p` start with the internal-network prefix `"172."`?
pub open spec fn is_internal_ip(p: Seq<char>) -> bool {
    p.len() >= 4 && p[0] == '1' && p[1] == '7' && p[2] == '2' && p[3] == '.'
}

/// The first address of the `", "`-separated chain `s` that does not start
/// with `"172."`, if any.
pub open spec fn first_real_ip(s: Seq<char>) -> Option<Seq<char>>
    decreases s.len()
        via first_real_ip_decreases
{
    match find_sep(s) {
        Some(i) => {
            if !is_internal_ip(s.subrange(0, i)) {
                Some(s.subrange(0, i))
            } else {
                first_real_ip(s.subrange(i + 2, s.len() as int))
            }
        },
        None => {
            if !is_internal_ip(s) {
                Some(s)
            } else {
                None
            }
        },
    }
}

#[via_fn]
proof fn first_real_ip_decreases(s: Seq<char>) {
    lemma_find_sep(s);
}

/// Does `p` start with `"172."`?
fn is_internal(p: &str) -> (r: bool)
    ensures
        r == is_internal_ip(p@),
{
    if p.unicode_len() < 4 {
        return false;
    }
    p.get_char(0) == '1' && p.get_char(1) == '7' && p.get_char(2) == '2' && p.get_char(3) == '.'
}

/// The position of the first `", "` separator of `s`, with its minimality.
fn find_sep_pos(s: &str) -> (r: Option<usize>)
    ensures
        r matches Some(k) ==> k + 2 <= s@.len() && sep_at(s@, k as int) && (forall|j: int|
            0 <= j < k ==> !sep_at(s@, j)),
        r is None ==> forall|j: int| !sep_at(s@, j),
{
    let n = s.unicode_len();
    let mut i: usize = 0;
    while n >= 2 && i <= n - 2
        invariant
            i <= n,
            n == s@.len(),
            forall|j: int| 0 <= j < i ==> !sep_at(s@, j),
        decreases n - i,
    {
        if s.get_char(i) == ',' {
            if s.get_char(i + 1) == ' ' {
                return Some(i);
            }
        }
        i = i + 1;
    }
    None
}

/// A reverse proxy in front of a container network typically hands back an
/// `X-Forwarded-For` chain such as `"104.218.65.97, 172.69.59.58"`: the real
/// remote address followed by internal hop addresses. This function takes
/// such a chain and returns the first address that does not look like an
/// internal hop — the address you probably 'want' — if there is one.
///
/// The heuristic is environment-specific, not general-purpose client-IP
/// trust logic: it assumes the leftmost real address precedes the internal
/// hops and that every internal hop address starts with `"172."`.
pub fn nginx_real_ip_only(ip_addresses: &str) -> (r: Option<String>)
    ensures
        (r is Some) == (first_real_ip(ip_addresses@) is Some),
        r matches Some(v) ==> Some(v@) == first_real_ip(ip_addresses@),
    decreases ip_addresses@.len(),
{
    proof {
        lemma_find_sep(ip_addresses@);
    }
    let n = ip_addresses.unicode_len();
    match find_sep_pos(ip_addresses) {
        Some(i) => {
            proof {
                if find_sep(ip_addresses@) is None {
                    assert(!sep_at(ip_addresses@, i as int));
                } else {
                    let k = find_sep(ip_addresses@)->Some_0;
                    if k < i {
                        assert(!sep_at(ip_addresses@, k));
                    } else if k > i {
                        assert(!sep_at(ip_addresses@, i as int));
                    }
                }
                assert(find_sep(ip_addresses@) == Some(i as int));
            }
            let part = ip_addresses.substring_char(0, i);
            if !is_internal(part) {
                Some(String::from_str(part))
            } else {
                let rest = ip_addresses.substring_char(i + 2, n);
                nginx_real_ip_only(rest)
            }
        },
        None => {
            proof {
                if find_sep(ip_addresses@) is Some {
                    let k = find_sep(ip_addresses@)->Some_0;
                    assert(!sep_at(ip_addresses@, k));
                }
            }
            if !is_internal(ip_addresses) {
                Some(String::from_str(ip_addresses))
            } else {
                None
            }
        },
    }
}

/// The sentinel for an unknown address, where a downstream consumer still
/// expects an address-shaped string.
pub const UNKNOWN_IP: &'static str = "?.?.?.?";

/// The address the [`nginx_get_ip`] heuristic yields for a request: the
/// first non-internal entry of its `X-Forwarded-For` chain, or the unknown
/// sentinel when the header is missing or every entry is internal.
pub open spec fn nginx_ip_of(hs: Seq<(Seq<char>, Seq<u8>)>) -> Seq<char> {
    let chain = match header_lookup(hs, lower_seq("X-Forwarded-For"@)) {
        Some(c) => c,
        None => "?.?.?.?"@,
    };
    match first_real_ip(chain) {
        Some(ip) => ip,
        None => "?.?.?.?"@,
    }
}

/// A convenient way of getting the real address a request came from, when a
/// reverse proxy in front fills the `X-Forwarded-For` header. See also the
/// [`nginx_real_ip_only`] method for the selection heuristic.
pub fn nginx_get_ip(req: &RequestData) -> (r: String)
    ensures
        r@ == nginx_ip_of(req.headers_seq()),
{
    let ip_addresses = match get_header(req, "X-Forwarded-For") {
        Some(v) => v,
        None => String::from_str(UNKNOWN_IP),
    };
    match nginx_real_ip_only(ip_addresses.as_str()) {
        Some(v) => v,
        None => String::from_str(UNKNOWN_IP),
    }
}

/// Deserialize an already-aggregated request body into any deserializable
/// payload. (Aggregating the body stream itself is the transport's concern;
/// this is the decoding step of payload extraction.) Which byte strings
/// decode is the payload type's own affair; a failure is the codec's error.
pub fn parse_payload<T: serde::de::DeserializeOwned>(bytes: &[u8]) -> (r: Result<T, ServerError>)
    ensures
        r matches Err(e) ==> e is SerdeJSON,
{
    match crate::codec::from_json_slice::<T>(bytes) {
        Ok(v) => Ok(v),
        Err(e) => Err(ServerError::SerdeJSON(e)),
    }
}

} // verus!
