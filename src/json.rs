use vstd::prelude::*;
use crate::error::{Error, Response};

verus! {

/// Whether `s` is the text of exactly one JSON value, surrounded by whitespace at most.
pub uninterp spec fn json_text_parses(s: Seq<char>) -> bool;

/// Relies on `serde_json::from_str::<serde_json::Value>`: it succeeds on the text of one JSON
/// value, and its success depends on the text alone.
#[verifier::external_body]
fn parse_json_value(s: &str) -> (r: Option<serde_json::Value>)
    ensures
        r is Some == json_text_parses(s@),
{
    serde_json::from_str::<serde_json::Value>(s).ok()
}

/// The body of a failed response, as a JSON value where it is one.
pub fn parse_server_error(body: &str) -> (r: Option<serde_json::Value>)
    ensures
        r is Some == json_text_parses(body@),
{
    parse_json_value(body)
}

/// The error that a failed response ends in: `BadRequest` where its body parsed as JSON,
/// else `Failure` with the response as it was read.
pub fn failure_error(status: u16, body: String, parsed: Option<serde_json::Value>) -> (r: Error)
    ensures
        match parsed {
            Some(v) => r == Error::BadRequest(v),
            None => r == Error::Failure(Response { status, body }),
        },
{
    match parsed {
        Some(v) => Error::BadRequest(v),
        None => Error::Failure(Response { status, body }),
    }
}

} // verus!
