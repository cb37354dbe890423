//! A unified error taxonomy: argument errors, authentication errors, codec
//! errors and transport errors, composable into one propagatable value.

use vstd::prelude::*;
use vstd::string::StringExecFns;

verus! {

// The codec and transport error types are carried through losslessly; their
// contents are opaque to this crate.
#[verifier::external_type_specification]
#[verifier::external_body]
pub struct ExSerdeJsonError(serde_json::Error);

#[verifier::external_type_specification]
#[verifier::external_body]
pub struct ExHyperError(hyper::Error);

#[verifier::external_type_specification]
#[verifier::external_body]
pub struct ExHttpError(hyper::http::Error);

/// A missing api key or an incorrect api key.
#[derive(Debug)]
pub enum ApiKeyError {
    /// An environment variable was expected to hold the API key, but it was
    /// not set; the field names the variable.
    MissingEnv(String),
    /// The provided api key was rejected; the field gives the reason.
    Rejected(String),
}

/// A required query argument (i.e. "&key=val" etc.) was not provided.
#[derive(Debug)]
pub struct MissingArg {
    /// The key that was missing.
    pub missing_key: String,
}

impl MissingArg {
    /// Human-readable rendering of this error.
    pub fn message(&self) -> (r: String)
        ensures
            r@ == "Required argument '"@ + self.missing_key@ + "' not found"@,
    {
        let r = String::from_str("Required argument '")
            .concat(self.missing_key.as_str())
            .concat("' not found");
        r
    }
}

/// A query argument (i.e. "&key=val" etc.) was provided but could not be
/// converted to the desired type.
#[derive(Debug)]
pub struct MalformedArg {
    /// The key that was provided.
    pub key: String,
    /// The provided value for the key.
    pub value: String,
    /// The type of value that was desired.
    pub dtype: String,
}

impl MalformedArg {
    pub fn new(key: &str, value: &str, dtype: &str) -> (r: Self)
        ensures
            r.key@ == key@,
            r.value@ == value@,
            r.dtype@ == dtype@,
    {
        let key = key.to_owned();
        let value = value.to_owned();
        let dtype = dtype.to_owned();
        MalformedArg { key, value, dtype }
    }

    /// Human-readable rendering of this error.
    pub fn message(&self) -> (r: String)
        ensures
            r@ == "Could not convert value '"@ + self.value@ + "' for key '"@ + self.key@
                + "' to "@ + self.dtype@ + " type"@,
    {
        let r = String::from_str("Could not convert value '")
            .concat(self.value.as_str())
            .concat("' for key '")
            .concat(self.key.as_str())
            .concat("' to ")
            .concat(self.dtype.as_str())
            .concat(" type");
        r
    }
}

/// Either kind of query-argument failure: a required key that was absent, or
/// a present value that failed conversion.
#[derive(Debug)]
pub enum ArgError {
    Missing(MissingArg),
    Malformed(MalformedArg),
}

impl ArgError {
    /// Human-readable rendering: the message of the underlying variant.
    pub fn message(&self) -> (r: String)
        ensures
            self matches ArgError::Missing(e) ==>
                r@ == "Required argument '"@ + e.missing_key@ + "' not found"@,
            self matches ArgError::Malformed(e) ==>
                r@ == "Could not convert value '"@ + e.value@ + "' for key '"@ + e.key@
                    + "' to "@ + e.dtype@ + " type"@,
    {
        match self {
            ArgError::Missing(e) => e.message(),
            ArgError::Malformed(e) => e.message(),
        }
    }
}

/// The unified error shape for everything that can go wrong in a request or
/// response: authentication, argument extraction, the JSON codec, and the
/// transport layer. Each source failure is wrapped, not flattened, so its
/// fields stay inspectable.
#[derive(Debug)]
pub enum HypErr {
    ApiKey(ApiKeyError),
    Arg(ArgError),
    SerdeJSON(serde_json::Error),
    Hyper(hyper::Error),
    HyperHTTP(hyper::http::Error),
}

impl From<ArgError> for HypErr {
    fn from(err: ArgError) -> (r: Self) {
        HypErr::Arg(err)
    }
}

impl vstd::std_specs::convert::FromSpecImpl<ArgError> for HypErr {
    open spec fn obeys_from_spec() -> bool {
        true
    }

    open spec fn from_spec(err: ArgError) -> Self {
        HypErr::Arg(err)
    }
}

impl From<ApiKeyError> for HypErr {
    fn from(err: ApiKeyError) -> (r: Self) {
        HypErr::ApiKey(err)
    }
}

impl vstd::std_specs::convert::FromSpecImpl<ApiKeyError> for HypErr {
    open spec fn obeys_from_spec() -> bool {
        true
    }

    open spec fn from_spec(err: ApiKeyError) -> Self {
        HypErr::ApiKey(err)
    }
}

impl From<MissingArg> for ArgError {
    fn from(err: MissingArg) -> (r: Self) {
        ArgError::Missing(err)
    }
}

impl vstd::std_specs::convert::FromSpecImpl<MissingArg> for ArgError {
    open spec fn obeys_from_spec() -> bool {
        true
    }

    open spec fn from_spec(err: MissingArg) -> Self {
        ArgError::Missing(err)
    }
}

impl From<MalformedArg> for ArgError {
    fn from(err: MalformedArg) -> (r: Self) {
        ArgError::Malformed(err)
    }
}

impl vstd::std_specs::convert::FromSpecImpl<MalformedArg> for ArgError {
    open spec fn obeys_from_spec() -> bool {
        true
    }

    open spec fn from_spec(err: MalformedArg) -> Self {
        ArgError::Malformed(err)
    }
}

impl From<MissingArg> for HypErr {
    fn from(err: MissingArg) -> (r: Self) {
        HypErr::Arg(ArgError::Missing(err))
    }
}

impl vstd::std_specs::convert::FromSpecImpl<MissingArg> for HypErr {
    open spec fn obeys_from_spec() -> bool {
        true
    }

    open spec fn from_spec(err: MissingArg) -> Self {
        HypErr::Arg(ArgError::Missing(err))
    }
}

impl From<MalformedArg> for HypErr {
    fn from(err: MalformedArg) -> (r: Self) {
        HypErr::Arg(ArgError::Malformed(err))
    }
}

impl vstd::std_specs::convert::FromSpecImpl<MalformedArg> for HypErr {
    open spec fn obeys_from_spec() -> bool {
        true
    }

    open spec fn from_spec(err: MalformedArg) -> Self {
        HypErr::Arg(ArgError::Malformed(err))
    }
}

impl From<serde_json::Error> for HypErr {
    fn from(err: serde_json::Error) -> (r: Self) {
        HypErr::SerdeJSON(err)
    }
}

impl vstd::std_specs::convert::FromSpecImpl<serde_json::Error> for HypErr {
    open spec fn obeys_from_spec() -> bool {
        true
    }

    open spec fn from_spec(err: serde_json::Error) -> Self {
        HypErr::SerdeJSON(err)
    }
}

impl From<hyper::Error> for HypErr {
    fn from(err: hyper::Error) -> (r: Self) {
        HypErr::Hyper(err)
    }
}

impl vstd::std_specs::convert::FromSpecImpl<hyper::Error> for HypErr {
    open spec fn obeys_from_spec() -> bool {
        true
    }

    open spec fn from_spec(err: hyper::Error) -> Self {
        HypErr::Hyper(err)
    }
}

impl From<hyper::http::Error> for HypErr {
    fn from(err: hyper::http::Error) -> (r: Self) {
        HypErr::HyperHTTP(err)
    }
}

impl vstd::std_specs::convert::FromSpecImpl<hyper::http::Error> for HypErr {
    open spec fn obeys_from_spec() -> bool {
        true
    }

    open spec fn from_spec(err: hyper::http::Error) -> Self {
        HypErr::HyperHTTP(err)
    }
}

} // verus!
