//! Interpreting the outcome of an HTTP GET.
//!
//! The host performs the request and reports a [`FetchOutcome`]: either a
//! transport failure with its description, or a response with its status
//! code and body text. [`interpret_outcome`] turns that into the parsed
//! JSON document or a classified [`FetchError`], exactly as the contract
//! states: a transport failure is a request error, a status outside
//! 200..=299 is an API error (the body is discarded), and a body that is
//! not valid JSON is a parse error.

use vstd::prelude::*;

use crate::decimal::dec_digits;
use crate::decimal::u16_to_decimal;
use crate::json::json_doc;
use crate::json::parse_json;

verus! {

/// A classified fetch failure. [`FetchError::message`] renders each kind
/// with its own prefix.
#[derive(Debug, PartialEq, Eq)]
pub enum FetchError {
    /// The transport failed (DNS, connection, timeout, TLS); holds the
    /// underlying description.
    Request(String),
    /// A response arrived, but its status code lies outside 200..=299.
    Api(u16),
    /// The body of a successful response is not valid JSON; holds the
    /// parser's description.
    Parse(String),
}

/// The rendered message of each error kind.
pub open spec fn error_message(e: FetchError) -> Seq<char> {
    match e {
        FetchError::Request(d) => "Request failed: "@ + d@,
        FetchError::Api(status) => "API error: "@ + dec_digits(status as nat),
        FetchError::Parse(d) => "Parse error: "@ + d@,
    }
}

impl FetchError {
    /// Renders the error as the message the front-end displays.
    pub fn message(&self) -> (r: String)
        ensures
            r@ == error_message(*self),
    {
        match self {
            FetchError::Request(d) => {
                let mut s = String::from_str("Request failed: ");
                s.append(d.as_str());
                s
            },
            FetchError::Api(status) => {
                let mut s = String::from_str("API error: ");
                let digits = u16_to_decimal(*status);
                s.append(digits.as_str());
                s
            },
            FetchError::Parse(d) => {
                let mut s = String::from_str("Parse error: ");
                s.append(d.as_str());
                s
            },
        }
    }
}

/// Errors of different kinds never render to the same message: each kind's
/// prefix starts with its own letter.
pub proof fn lemma_error_kinds_distinguishable(a: FetchError, b: FetchError)
    requires
        !(a is Request && b is Request),
        !(a is Api && b is Api),
        !(a is Parse && b is Parse),
    ensures
        error_message(a) != error_message(b),
{
    reveal_strlit("Request failed: ");
    reveal_strlit("API error: ");
    reveal_strlit("Parse error: ");
    assert(error_message(a)[0] != error_message(b)[0]);
}

/// What the host observed when it performed the GET.
pub enum FetchOutcome {
    /// The transport failed before a response arrived; holds the
    /// underlying description.
    Failure(String),
    /// A response arrived: its status code and its body text.
    Response(u16, String),
}

/// Whether an HTTP status code counts as success.
pub open spec fn is_success_status(status: u16) -> bool {
    200 <= status <= 299
}

/// Interprets a response: a status outside 200..=299 is an API error and
/// the body is discarded; otherwise the body is parsed as JSON and the
/// document is returned unchanged, or the parser's description becomes a
/// parse error.
pub fn evaluate_response(status: u16, body: &str) -> (r: Result<serde_json::Value, FetchError>)
    ensures
        !is_success_status(status) ==> r == Err::<serde_json::Value, FetchError>(
            FetchError::Api(status),
        ),
        is_success_status(status) ==> (match json_doc(body@) {
            Ok(v) => r == Ok::<serde_json::Value, FetchError>(v),
            Err(d) => r matches Err(e) && e matches FetchError::Parse(m) && m@ == d,
        }),
{
    if status < 200 || status > 299 {
        return Err(FetchError::Api(status));
    }
    match parse_json(body) {
        Ok(v) => Ok(v),
        Err(m) => Err(FetchError::Parse(m)),
    }
}

/// Interprets the whole outcome of a GET: a transport failure becomes a
/// request error carrying its description; a response is interpreted by
/// [`evaluate_response`].
pub fn interpret_outcome(outcome: FetchOutcome) -> (r: Result<serde_json::Value, FetchError>)
    ensures
        (outcome matches FetchOutcome::Failure(d) ==> r == Err::<serde_json::Value, FetchError>(
            FetchError::Request(d),
        )),
        (outcome matches FetchOutcome::Response(status, body) ==> {
            &&& !is_success_status(status) ==> r == Err::<serde_json::Value, FetchError>(
                FetchError::Api(status),
            )
            &&& is_success_status(status) ==> (match json_doc(body@) {
                Ok(v) => r == Ok::<serde_json::Value, FetchError>(v),
                Err(d) => r matches Err(e) && e matches FetchError::Parse(m) && m@ == d,
            })
        }),
{
    match outcome {
        FetchOutcome::Failure(d) => Err(FetchError::Request(d)),
        FetchOutcome::Response(status, body) => evaluate_response(status, body.as_str()),
    }
}

} // verus!
