//! Trusted wrappers around the JSON codec. The codec is an external
//! collaborator: which payloads encode, and to what text, depends on the
//! payload type's own serialization, so nothing is claimed of the text here;
//! the verified callers state what they do with whatever comes back.

use vstd::prelude::*;

verus! {

/// Relies on `serde_json::to_string`: serialize a value to JSON text, with
/// an error when the payload's own serialization rejects it.
#[verifier::external_body]
pub(crate) fn to_json_string<T: serde::Serialize>(value: &T) -> Result<String, serde_json::Error> {
    serde_json::to_string(value)
}

/// Relies on `serde_json::from_slice`: deserialize JSON text into a value,
/// with an error when the bytes are not a JSON document of the right shape.
#[verifier::external_body]
pub(crate) fn from_json_slice<T: serde::de::DeserializeOwned>(bytes: &[u8]) -> Result<
    T,
    serde_json::Error,
> {
    serde_json::from_slice(bytes)
}

} // verus!
