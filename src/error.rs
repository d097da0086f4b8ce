use vstd::prelude::*;

verus! {

#[verifier::external_type_specification]
#[verifier::external_body]
pub struct ExValue(serde_json::Value);

/// A response that was not a success: its status and the body as it was read.
#[derive(Debug)]
pub struct Response {
    pub status: u16,
    pub body: String,
}

/// Why a call did not produce a decoded result.
#[derive(Debug)]
pub enum Error {
    /// The transport failed (connection, TLS, timeout) and was not retried.
    HttpError(String),
    /// The payload is larger than the operation accepts: its size, then the limit.
    UploadSizeLimitExceeded(u64, u64),
    /// The server answered with a failure whose body is a JSON value.
    BadRequest(serde_json::Value),
    /// Neither a token nor an API key was available.
    MissingAPIKey,
    /// No token could be had for the call's scopes.
    MissingToken(String),
    /// The call was given up.
    Cancelled,
    /// An additional parameter has the name of one the operation sets itself.
    FieldClash(String),
    /// A success response whose body does not decode: the body, then the decoder's words.
    JsonDecodeError(String, String),
    /// The server answered with a failure whose body is not JSON.
    Failure(Response),
    /// Reading or writing failed.
    Io(String),
}

} // verus!
