use vstd::prelude::*;
use crate::models::UserData;
use crate::responses::{is_error_reply, ApiResponse, GeneralError, Status};
use crate::token::Claims;

verus! {

/// What the authentication middleware does next.
#[derive(Debug, Clone, PartialEq, Eq)]
pub enum AuthStep {
    /// Answer with this reply instead of the route's.
    Reject(ApiResponse),
    /// Validate this access token with the secret, then call `auth_after_token`.
    ValidateToken(String),
    /// Check that the user the claims name exists, then call `auth_after_user_check`.
    CheckUser(Claims),
    /// Attach this user to the request and hand it to the route.
    Forward(UserData),
}

/// The first decision on a request to a protected route: a request without the
/// `accessToken` cookie is refused with `401`, a server without its state with `500`;
/// otherwise the token is validated.
pub fn auth_on_request(access_token: Option<String>, has_app_state: bool) -> (res: AuthStep)
    ensures
        access_token is None ==> (res matches AuthStep::Reject(r) && is_error_reply(
            r,
            Status::Unauthorized,
            "Unauthorized: Missing accessToken cookie"@,
        )),
        access_token is Some && !has_app_state ==> (res matches AuthStep::Reject(r)
            && is_error_reply(r, Status::InternalServerError, "Failed to retrieve application state"@)),
        access_token matches Some(t) ==> (has_app_state ==> res == AuthStep::ValidateToken(t)),
{
    match access_token {
        None => AuthStep::Reject(
            ApiResponse::error(Status::Unauthorized, "Unauthorized: Missing accessToken cookie"),
        ),
        Some(t) => {
            if !has_app_state {
                AuthStep::Reject(
                    ApiResponse::error(
                        Status::InternalServerError,
                        "Failed to retrieve application state",
                    ),
                )
            } else {
                AuthStep::ValidateToken(t)
            }
        },
    }
}

/// After validating the token: an invalid token is refused with `401` and the validator's
/// message; the claims of a valid one are checked against the users.
pub fn auth_after_token(validated: Result<Claims, String>) -> (res: AuthStep)
    ensures
        validated matches Err(m) ==> res == AuthStep::Reject(
            ApiResponse::Error { status: Status::Unauthorized, body: GeneralError { message: m } },
        ),
        validated matches Ok(c) ==> res == AuthStep::CheckUser(c),
{
    match validated {
        Err(m) => AuthStep::Reject(
            ApiResponse::Error { status: Status::Unauthorized, body: GeneralError { message: m } },
        ),
        Ok(c) => AuthStep::CheckUser(c),
    }
}

/// After checking that the user exists: a failed check is refused with `400` and its message;
/// otherwise the request goes on carrying the user named in the claims.
pub fn auth_after_user_check(claims: Claims, exists: Result<(), String>) -> (res: AuthStep)
    ensures
        exists matches Err(m) ==> res == AuthStep::Reject(
            ApiResponse::Error { status: Status::BadRequest, body: GeneralError { message: m } },
        ),
        exists is Ok ==> res == AuthStep::Forward(
            UserData { username: claims.username, user_id: claims.user_id },
        ),
{
    match exists {
        Err(m) => AuthStep::Reject(
            ApiResponse::Error { status: Status::BadRequest, body: GeneralError { message: m } },
        ),
        Ok(()) => AuthStep::Forward(UserData { username: claims.username, user_id: claims.user_id }),
    }
}

} // verus!
