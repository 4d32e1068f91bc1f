//! The one failure type of the library.

use vstd::prelude::*;

verus! {

/// `hyper::Error`, the failure of an HTTP exchange.
#[verifier::external_type_specification]
#[verifier::external_body]
pub struct ExTransportError(hyper::Error);

/// `std::string::FromUtf8Error`, the failure to read bytes as UTF-8.
#[verifier::external_type_specification]
#[verifier::external_body]
pub struct ExEncodingError(std::string::FromUtf8Error);

/// The stage at which a query can fail.
#[derive(Debug, Clone, Copy, PartialEq, Eq, Structural)]
pub enum Stage {
    /// The HTTP exchange.
    Transport,
    /// Reading the response body as UTF-8.
    Encoding,
    /// Parsing the text as JSON.
    Parse,
    /// Reading the document into a result.
    Projection,
}

/// Why a query for an address gave no result. Each variant names the stage
/// that failed and carries what that stage reported.
#[derive(Debug)]
pub enum Failure {
    /// The HTTP exchange could not be completed.
    Transport(hyper::Error),
    /// The response body is not valid UTF-8.
    Encoding(std::string::FromUtf8Error),
    /// The response body is not a JSON document.
    Parse(serde_json::Error),
    /// The document does not say which address it answers for.
    MissingQuery,
}

impl Failure {
    /// The stage that failed.
    pub open spec fn spec_stage(&self) -> Stage {
        match self {
            Failure::Transport(_) => Stage::Transport,
            Failure::Encoding(_) => Stage::Encoding,
            Failure::Parse(_) => Stage::Parse,
            Failure::MissingQuery => Stage::Projection,
        }
    }

    /// Tells at which stage the query failed.
    #[verifier::when_used_as_spec(spec_stage)]
    pub fn stage(&self) -> (stage: Stage)
        ensures
            stage == self.spec_stage(),
    {
        match self {
            Failure::Transport(_) => Stage::Transport,
            Failure::Encoding(_) => Stage::Encoding,
            Failure::Parse(_) => Stage::Parse,
            Failure::MissingQuery => Stage::Projection,
        }
    }
}

impl From<hyper::Error> for Failure {
    fn from(cause: hyper::Error) -> (r: Failure) {
        Failure::Transport(cause)
    }
}

impl vstd::std_specs::convert::FromSpecImpl<hyper::Error> for Failure {
    open spec fn obeys_from_spec() -> bool {
        true
    }

    open spec fn from_spec(cause: hyper::Error) -> Failure {
        Failure::Transport(cause)
    }
}

impl From<std::string::FromUtf8Error> for Failure {
    fn from(cause: std::string::FromUtf8Error) -> (r: Failure) {
        Failure::Encoding(cause)
    }
}

impl vstd::std_specs::convert::FromSpecImpl<std::string::FromUtf8Error> for Failure {
    open spec fn obeys_from_spec() -> bool {
        true
    }

    open spec fn from_spec(cause: std::string::FromUtf8Error) -> Failure {
        Failure::Encoding(cause)
    }
}

impl From<serde_json::Error> for Failure {
    fn from(cause: serde_json::Error) -> (r: Failure) {
        Failure::Parse(cause)
    }
}

impl vstd::std_specs::convert::FromSpecImpl<serde_json::Error> for Failure {
    open spec fn obeys_from_spec() -> bool {
        true
    }

    open spec fn from_spec(cause: serde_json::Error) -> Failure {
        Failure::Parse(cause)
    }
}

} // verus!
