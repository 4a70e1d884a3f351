use vstd::prelude::*;
use crate::models::{User, UserData, UrlFromDB};

verus! {

/// The body of an error reply.
#[derive(Debug, Clone, PartialEq, Eq)]
pub struct GeneralError {
    pub message: String,
}

/// The body of a reply to a request that failed validation.
#[derive(Debug, Clone, PartialEq, Eq)]
pub struct ValidationErrorsToBeReturned {
    pub errors: Vec<String>,
}

/// The HTTP status of a reply.
#[derive(Debug, Clone, Copy, PartialEq, Eq, Structural)]
pub enum Status {
    Success,
    Created,
    PermanentRedirect,
    BadRequest,
    Unauthorized,
    NotFound,
    InternalServerError,
}

/// A reply of the API: its status and its body.
#[derive(Debug, Clone, PartialEq, Eq)]
pub enum ApiResponse {
    /// An error with a message.
    Error { status: Status, body: GeneralError },
    /// `400 Bad Request` with the validation messages.
    ValidationFailed(ValidationErrorsToBeReturned),
    /// `200 OK` with the user that was created.
    UserCreated(User),
    /// `200 OK` with an empty (`null`) body: the credentials are right.
    LoggedIn,
    /// `200 OK` with the signed-in user.
    CurrentUser(UserData),
    /// `201 Created` with the stored URL.
    UrlCreated(UrlFromDB),
    /// `308 Permanent Redirect` to `location`.
    Redirect { location: String },
}

/// The numeric HTTP code of a status.
pub open spec fn spec_status_code(s: Status) -> u16 {
    match s {
        Status::Success => 200,
        Status::Created => 201,
        Status::PermanentRedirect => 308,
        Status::BadRequest => 400,
        Status::Unauthorized => 401,
        Status::NotFound => 404,
        Status::InternalServerError => 500,
    }
}

impl Status {
    /// The numeric HTTP code of this status.
    pub fn code(&self) -> (res: u16)
        ensures
            res == spec_status_code(*self),
    {
        match self {
            Status::Success => 200,
            Status::Created => 201,
            Status::PermanentRedirect => 308,
            Status::BadRequest => 400,
            Status::Unauthorized => 401,
            Status::NotFound => 404,
            Status::InternalServerError => 500,
        }
    }
}

/// The status that a reply carries.
pub open spec fn spec_status_of(r: ApiResponse) -> Status {
    match r {
        ApiResponse::Error { status, .. } => status,
        ApiResponse::ValidationFailed(_) => Status::BadRequest,
        ApiResponse::UserCreated(_) => Status::Success,
        ApiResponse::LoggedIn => Status::Success,
        ApiResponse::CurrentUser(_) => Status::Success,
        ApiResponse::UrlCreated(_) => Status::Created,
        ApiResponse::Redirect { .. } => Status::PermanentRedirect,
    }
}

/// `r` is an error reply with this status and this message.
pub open spec fn is_error_reply(r: ApiResponse, status: Status, message: Seq<char>) -> bool {
    &&& r matches ApiResponse::Error { status: s, body }
    &&& s == status
    &&& body.message@ == message
}

/// `r` redirects to `location`.
pub open spec fn is_redirect_to(r: ApiResponse, location: Seq<char>) -> bool {
    r matches ApiResponse::Redirect { location: l } && l@ == location
}

impl ApiResponse {
    /// The status of this reply.
    pub fn status(&self) -> (res: Status)
        ensures
            res == spec_status_of(*self),
    {
        match self {
            ApiResponse::Error { status, .. } => *status,
            ApiResponse::ValidationFailed(_) => Status::BadRequest,
            ApiResponse::UserCreated(_) => Status::Success,
            ApiResponse::LoggedIn => Status::Success,
            ApiResponse::CurrentUser(_) => Status::Success,
            ApiResponse::UrlCreated(_) => Status::Created,
            ApiResponse::Redirect { .. } => Status::PermanentRedirect,
        }
    }

    /// An error reply with `message` as its body.
    pub fn error(status: Status, message: &str) -> (res: ApiResponse)
        ensures
            is_error_reply(res, status, message@),
    {
        ApiResponse::Error { status, body: GeneralError { message: String::from_str(message) } }
    }
}

/// Each status is sent with its standard HTTP code, and only `Success` and `Created` are
/// success codes: every error status is a 4xx or 5xx code.
pub proof fn lemma_status_codes(s: Status)
    ensures
        spec_status_code(Status::Success) == 200,
        spec_status_code(Status::Created) == 201,
        spec_status_code(Status::PermanentRedirect) == 308,
        spec_status_code(Status::BadRequest) == 400,
        spec_status_code(Status::Unauthorized) == 401,
        spec_status_code(Status::NotFound) == 404,
        spec_status_code(Status::InternalServerError) == 500,
        (s == Status::Success || s == Status::Created) <==> (200 <= spec_status_code(s) < 300),
        s == Status::PermanentRedirect <==> (300 <= spec_status_code(s) < 400),
{
}

/// An error reply is sent with the status it was built with, whatever its message.
pub proof fn lemma_error_reply_status(status: Status, body: GeneralError)
    ensures
        spec_status_of(ApiResponse::Error { status, body }) == status,
{
}

/// The status codes of the other replies: a failed validation is 400, a created user, a
/// successful sign-in and the signed-in user are 200, a stored URL is 201, and a redirect to
/// any location is 308.
pub proof fn lemma_reply_status_codes(
    errors: ValidationErrorsToBeReturned,
    created: User,
    current: UserData,
    stored: UrlFromDB,
    location: String,
)
    ensures
        spec_status_code(spec_status_of(ApiResponse::ValidationFailed(errors))) == 400,
        spec_status_code(spec_status_of(ApiResponse::UserCreated(created))) == 200,
        spec_status_code(spec_status_of(ApiResponse::LoggedIn)) == 200,
        spec_status_code(spec_status_of(ApiResponse::CurrentUser(current))) == 200,
        spec_status_code(spec_status_of(ApiResponse::UrlCreated(stored))) == 201,
        spec_status_code(spec_status_of(ApiResponse::Redirect { location })) == 308,
{
}

} // verus!
