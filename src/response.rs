//! What the client does with an HTTP response, and the errors a call ends in.
use vstd::prelude::*;

verus! {

/// The ways a call fails.
#[derive(Debug)]
pub enum ApiError {
    /// The transport could not carry the call out (connection, timeout, DNS);
    /// its message is kept as it was given.
    Transport(String),
    /// The server answered with a status outside 200..=299; `body` is what it
    /// sent along.
    Status { code: u16, body: String },
    /// A successful response whose body does not have the declared shape.
    Decode(String),
    /// The request's body could not be encoded.
    Encode,
}

/// What follows a response: decode its body, or end in an error.
#[derive(Debug)]
pub enum ResponseStep {
    Decode(String),
    Fail(ApiError),
}

/// Whether a status code reports success.
pub open spec fn is_success(code: u16) -> bool {
    200 <= code <= 299
}

/// The step that follows a response with status `code` and body `body`.
pub open spec fn response_step(code: u16, body: String) -> ResponseStep {
    if is_success(code) {
        ResponseStep::Decode(body)
    } else {
        ResponseStep::Fail(ApiError::Status { code, body })
    }
}

/// The result of a decoding attempt, as the caller sees it.
pub open spec fn decoded_result<T>(decoded: Result<T, String>) -> Result<T, ApiError> {
    match decoded {
        Ok(v) => Ok(v),
        Err(m) => Err(ApiError::Decode(m)),
    }
}

/// The result of a call whose response had status `code` and body `body`,
/// where `decoded` is what decoding that body gives. On a failure status the
/// body is never decoded, whatever decoding would give.
pub open spec fn call_result<T>(code: u16, body: String, decoded: Result<T, String>) -> Result<T, ApiError> {
    match response_step(code, body) {
        ResponseStep::Decode(_) => decoded_result(decoded),
        ResponseStep::Fail(e) => Err(e),
    }
}

/// Decides what follows a response: a success status hands the body on for
/// decoding; any other status ends the call with that status and body.
pub fn on_response(code: u16, body: String) -> (r: ResponseStep)
    ensures
        r == response_step(code, body),
{
    if 200 <= code && code <= 299 {
        ResponseStep::Decode(body)
    } else {
        ResponseStep::Fail(ApiError::Status { code, body })
    }
}

/// Turns the outcome of decoding a successful response into the call's
/// result: a decoding failure is reported as such, never as an empty value.
pub fn on_decoded<T>(decoded: Result<T, String>) -> (r: Result<T, ApiError>)
    ensures
        r == decoded_result(decoded),
{
    match decoded {
        Ok(v) => Ok(v),
        Err(m) => Err(ApiError::Decode(m)),
    }
}

/// A response with status 404 ends the call in a status error carrying 404
/// and the body, and its body is not decoded: the result is the same whatever
/// decoding would have given.
pub proof fn lemma_not_found_is_status_error<T>(body: String, decoded: Result<T, String>)
    ensures
        response_step(404, body) == ResponseStep::Fail(ApiError::Status { code: 404, body }),
        call_result(404, body, decoded) == Err::<T, ApiError>(ApiError::Status { code: 404, body }),
{
}

/// Every failure status ends the call in a status error carrying that code,
/// never in a decoding error.
pub proof fn lemma_failure_status_never_decodes<T>(code: u16, body: String, decoded: Result<T, String>)
    requires
        !is_success(code),
    ensures
        call_result(code, body, decoded) == Err::<T, ApiError>(ApiError::Status { code, body }),
        !(call_result(code, body, decoded) matches Err(ApiError::Decode(_))),
{
}

/// A response with status 200 whose body fails to decode ends the call in a
/// decoding error with the decoder's message, not in a value.
pub proof fn lemma_bad_body_is_decode_error<T>(body: String, message: String)
    ensures
        response_step(200, body) == ResponseStep::Decode(body),
        call_result::<T>(200, body, Err(message)) == Err::<T, ApiError>(ApiError::Decode(message)),
{
}

} // verus!
