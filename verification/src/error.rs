//! Failure taxonomy of the request pipeline.

use vstd::prelude::*;

verus! {

/// HTTP status sent when credentials are missing or no longer valid.
pub const UNAUTHORIZED: u16 = 401;

/// HTTP status sent when the credentials do not grant access.
pub const FORBIDDEN: u16 = 403;

/// API error types.
#[derive(Clone, Copy, Debug, PartialEq, Eq)]
pub enum ApiError {
    /// Raised when a response is missing a field.
    MissingFieldError(&'static str),
    /// Raised when a field cannot be converted to the specified type.
    InvalidTypeError(&'static str, &'static str),
    /// Raised when an API call is made and the user isn't authenticated.
    /// Carries the HTTP status that triggered it.
    NotAuthenticatedError(u16),
}

/// A failure on the way to the server and back.
#[derive(Clone, Debug, PartialEq, Eq)]
pub enum TransportError {
    /// The server answered with a status that does not report success.
    Status(u16),
    /// The body of the answer is not a JSON document.
    Decode,
    /// No answer was received (network error, timeout), with the
    /// transport's own description of what happened.
    Other(String),
}

impl TransportError {
    /// The HTTP status that the failure carries, if it carries one.
    pub open spec fn spec_status(&self) -> Option<u16> {
        match self {
            TransportError::Status(status) => Some(*status),
            _ => None,
        }
    }

    /// The HTTP status that the failure carries, if it carries one.
    #[verifier::when_used_as_spec(spec_status)]
    pub fn status(&self) -> (r: Option<u16>)
        ensures
            r == self.spec_status(),
    {
        match self {
            TransportError::Status(status) => Some(*status),
            _ => None,
        }
    }
}

/// Everything a step of the pipeline can fail with.
#[derive(Clone, Debug, PartialEq, Eq)]
pub enum RequestError {
    /// A failure of this library's own taxonomy.
    Api(ApiError),
    /// A transport failure, passed on as it was reported.
    Transport(TransportError),
}

/// Whether `status` tells the caller that its credentials were rejected.
pub open spec fn is_auth_rejection(status: Option<u16>) -> bool {
    status == Some(UNAUTHORIZED) || status == Some(FORBIDDEN)
}

/// How a transport failure is reported to the caller.
pub open spec fn classified(e: TransportError) -> RequestError {
    if is_auth_rejection(e.status()) {
        RequestError::Api(ApiError::NotAuthenticatedError(e.status().unwrap()))
    } else {
        RequestError::Transport(e)
    }
}

/// Status 401 and status 403 are reported as `NotAuthenticatedError`, with
/// the status that came; a failure with any other status, or with none, is
/// reported as it came.
pub proof fn lemma_reclassification(e: TransportError)
    ensures
        e.status() == Some(UNAUTHORIZED) ==> classified(e) == RequestError::Api(
            ApiError::NotAuthenticatedError(401),
        ),
        e.status() == Some(FORBIDDEN) ==> classified(e) == RequestError::Api(
            ApiError::NotAuthenticatedError(403),
        ),
        e.status() != Some(UNAUTHORIZED) && e.status() != Some(FORBIDDEN) ==> classified(e)
            == RequestError::Transport(e),
{
}

impl ApiError {
    /// What the error says, in words.
    pub open spec fn message_text(self) -> Seq<char> {
        match self {
            ApiError::MissingFieldError(field) => "Missing field in json response: "@ + field@,
            ApiError::InvalidTypeError(field, expected) => "Cannot convert field "@ + field@
                + " to type "@ + expected@,
            ApiError::NotAuthenticatedError(_) => "Not authenticated"@,
        }
    }

    /// What the error says, in words.
    pub fn message(&self) -> (r: String)
        ensures
            r@ == self.message_text(),
    {
        match self {
            ApiError::MissingFieldError(field) => {
                let mut text = String::from_str("Missing field in json response: ");
                text.append(field);
                text
            },
            ApiError::InvalidTypeError(field, expected) => {
                let mut text = String::from_str("Cannot convert field ");
                text.append(field);
                text.append(" to type ");
                text.append(expected);
                text
            },
            ApiError::NotAuthenticatedError(_) => String::from_str("Not authenticated"),
        }
    }
}

/// Replaces a failure that carries status 401 or 403 by
/// [`ApiError::NotAuthenticatedError`]; every other failure passes unchanged.
pub fn wrap_error(e: TransportError) -> (r: RequestError)
    ensures
        r == classified(e),
{
    match e.status() {
        Some(status) => {
            if status == UNAUTHORIZED || status == FORBIDDEN {
                RequestError::Api(ApiError::NotAuthenticatedError(status))
            } else {
                RequestError::Transport(e)
            }
        },
        None => RequestError::Transport(e),
    }
}

} // verus!
