//! Plain-data models of the inbound request and the outbound response.
//!
//! The transport layer owns connections and body streams; handler code hands
//! this crate a snapshot of the parts it reads (the URI and the header list)
//! and receives back a response description (status, headers, body) that the
//! transport then sends.

use vstd::prelude::*;

verus! {

/// The parts of an inbound request that this crate reads: the request URI
/// (path plus optional query string) and the header list in arrival order.
/// Header names are expected lowercase, as HTTP/2-era transports deliver
/// them; values are raw bytes, since a header value need not be valid text.
pub struct RequestData {
    /// The request URI as received, e.g. `/items?page=2`.
    pub uri: String,
    /// Header (name, value) pairs in arrival order; a name may repeat.
    pub headers: Vec<(String, Vec<u8>)>,
}

impl RequestData {
    /// The header list as a sequence of (name, value bytes) pairs.
    pub open spec fn headers_seq(&self) -> Seq<(Seq<char>, Seq<u8>)> {
        self.headers.deep_view()
    }
}

/// An outbound response description: status code, header list, body text.
/// Built exactly once per handling attempt and handed to the transport.
pub struct HttpResponse {
    /// The HTTP status code, e.g. 200 or 404.
    pub status: u16,
    /// Header (name, value) pairs, in the order they should be sent.
    pub headers: Vec<(String, String)>,
    /// The response body.
    pub body: String,
}

impl HttpResponse {
    /// The header list as a sequence of (name, value) character sequences.
    pub open spec fn headers_seq(&self) -> Seq<(Seq<char>, Seq<char>)> {
        self.headers.deep_view()
    }
}

} // verus!
