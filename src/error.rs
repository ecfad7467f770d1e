//! The errors of the status variant, and how to tell a failed decode of the
//! answer from other failures of the HTTP client.
use vstd::prelude::*;

verus! {

#[verifier::external_type_specification]
#[verifier::external_body]
pub struct ExReqwestError(reqwest::Error);

#[verifier::external_type_specification]
#[verifier::external_body]
pub struct ExUreqError(ureq::Error);

/// Whether reqwest classifies the error as a failure to decode the response body.
pub uninterp spec fn reqwest_decode_of(e: reqwest::Error) -> bool;

/// Relies on `reqwest::Error::is_decode`: whether the error came from
/// decoding the response body, read from the error's kind alone.
pub assume_specification[ reqwest::Error::is_decode ](e: &reqwest::Error) -> (r: bool)
    ensures
        r == reqwest_decode_of(*e),
;

/// Whether the ureq error is its `Json` variant, a failed decode of a JSON body.
pub uninterp spec fn ureq_json_of(e: ureq::Error) -> bool;

/// Potential errors of the Tor verification, where `E` is the HTTP client's
/// error type.
#[derive(Debug, PartialEq)]
pub enum TorCheckError<E> {
    /// Error returned by the HTTP client.
    HttpClient(E),
    /// The check service says that the request did not come through Tor.
    YouAreNotUsingTor,
}

/// The text that describes `TorCheckError::YouAreNotUsingTor`.
pub const NOT_USING_TOR_MESSAGE: &'static str = "You are not using Tor";

/// Relies on `ureq::Error`'s variants: whether the error is `ureq::Error::Json`,
/// a failed decode of a JSON body.
#[verifier::external_body]
fn ureq_is_json(e: &ureq::Error) -> (r: bool)
    ensures
        r == ureq_json_of(*e),
{
    matches!(e, ureq::Error::Json(_))
}

impl TorCheckError<reqwest::Error> {
    /// Returns true if the error is related to the JSON response
    /// deserialization.
    pub fn is_decode(&self) -> (r: bool)
        ensures
            self is YouAreNotUsingTor ==> !r,
            self is HttpClient ==> r == reqwest_decode_of(self->HttpClient_0),
    {
        match self {
            TorCheckError::HttpClient(err) => err.is_decode(),
            TorCheckError::YouAreNotUsingTor => false,
        }
    }
}

impl TorCheckError<ureq::Error> {
    /// Returns true if the error is related to the JSON response
    /// deserialization.
    pub fn is_decode(&self) -> (r: bool)
        ensures
            self is YouAreNotUsingTor ==> !r,
            self is HttpClient ==> r == ureq_json_of(self->HttpClient_0),
    {
        match self {
            TorCheckError::HttpClient(err) => ureq_is_json(err),
            TorCheckError::YouAreNotUsingTor => false,
        }
    }
}

impl From<ureq::Error> for TorCheckError<ureq::Error> {
    fn from(err: ureq::Error) -> Self {
        TorCheckError::HttpClient(err)
    }
}

impl vstd::std_specs::convert::FromSpecImpl<ureq::Error> for TorCheckError<ureq::Error> {
    open spec fn obeys_from_spec() -> bool {
        true
    }

    open spec fn from_spec(err: ureq::Error) -> Self {
        TorCheckError::HttpClient(err)
    }
}

impl From<reqwest::Error> for TorCheckError<reqwest::Error> {
    fn from(err: reqwest::Error) -> Self {
        TorCheckError::HttpClient(err)
    }
}

impl vstd::std_specs::convert::FromSpecImpl<reqwest::Error> for TorCheckError<reqwest::Error> {
    open spec fn obeys_from_spec() -> bool {
        true
    }

    open spec fn from_spec(err: reqwest::Error) -> Self {
        TorCheckError::HttpClient(err)
    }
}

} // verus!
