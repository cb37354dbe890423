//! Ergonomic helpers for HTTP handler code: a unified error taxonomy,
//! header and query-parameter extraction with typed conversion, response
//! builders for JSON and CORS replies, outbound JSON request construction,
//! and a reverse-proxy real-IP heuristic.
//!
//! The asynchronous transport itself (connections, body streams) is left to
//! the caller; this crate works on plain request and response data.

pub mod client;
pub mod codec;
pub mod err;
pub mod http_data;
pub mod params;
pub mod query;
pub mod server;
