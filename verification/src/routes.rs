pub mod addresses;
pub mod login;
pub mod offers;
pub mod sessions;
pub mod users;

use vstd::prelude::*;

verus! {

/// The status attached to an error response.
#[derive(Clone, Copy, Debug, PartialEq, Eq, Structural)]
pub enum HttpStatus {
    BadRequest,
    Unauthorized,
    Forbidden,
    NotFound,
    InternalServerError,
}

/// The body of an error response: a human-readable reason. Internal error
/// text never crosses the boundary; callers pass a fixed message.
#[derive(Debug)]
pub struct ErrorBody {
    pub error: String,
}

/// An error response: a status and a reason.
#[derive(Debug)]
pub struct ApiError {
    pub status: HttpStatus,
    pub body: ErrorBody,
}

/// The result type of every request handler.
pub type ApiResult<T> = Result<T, ApiError>;

/// Builds an error response with the given status and reason.
pub fn error(status: HttpStatus, message: &str) -> (e: ApiError)
    ensures
        e.status == status,
        e.body.error@ == message@,
{
    ApiError { status, body: ErrorBody { error: String::from_str(message) } }
}

/// The user-agent header of a request, recorded on persistent sessions.
pub struct UserAgent(pub String);

/// The redirect addresses of the configured OAuth providers; a provider that
/// is not configured is reported as absent.
pub struct OAuthProviders {
    pub github: Option<String>,
}

} // verus!
