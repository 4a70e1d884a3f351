use vstd::prelude::*;
use crate::models::{StoreError, User, UserData, UserReqBody, UserWithPassword};
use crate::password::{bcrypt_verify_outcome, hash_password, verify_password, PasswordError};
use crate::responses::{is_error_reply, ApiResponse, Status};
use crate::validation::{credential_len_ok, message_views, user_validation_messages};

verus! {

/// What validating a sign-up or sign-in body answers: nothing to say when it is valid,
/// else a `400` reply with one message per failing field.
pub open spec fn user_request_check_spec(body: UserReqBody, res: Option<ApiResponse>) -> bool {
    &&& res is None <==> (credential_len_ok(body.username@) && credential_len_ok(body.password@))
    &&& res matches Some(r) ==> (r matches ApiResponse::ValidationFailed(e) && message_views(e.errors@)
        == user_validation_messages(body.username@, body.password@))
}

/// First step of sign-up and of sign-in: validates the body. `None` means: go on and look the
/// username up; `Some(reply)` is the `400` reply.
pub fn check_user_request(body: &UserReqBody) -> (res: Option<ApiResponse>)
    ensures
        user_request_check_spec(*body, res),
{
    match body.validate() {
        Ok(()) => None,
        Err(e) => Some(ApiResponse::ValidationFailed(e)),
    }
}

/// What sign-up does next.
#[derive(Debug, Clone, PartialEq, Eq)]
pub enum CreateUserStep {
    /// Answer with this reply.
    Respond(ApiResponse),
    /// Insert a user with this name and password hash, then call `create_user_after_insert`.
    InsertUser { username: String, password_hash: String },
}

/// What sign-up does once the password was hashed (or failed to be).
pub open spec fn create_user_hash_spec(
    body: UserReqBody,
    hashed: Result<String, PasswordError>,
    res: CreateUserStep,
) -> bool {
    &&& hashed is Err ==> (res matches CreateUserStep::Respond(r) && is_error_reply(
        r,
        Status::InternalServerError,
        "Issue hashing the password"@,
    ))
    &&& hashed matches Ok(h) ==> res == CreateUserStep::InsertUser {
        username: body.username,
        password_hash: h,
    }
}

/// What sign-up does once it knows whether the username is taken.
pub open spec fn create_user_lookup_spec(
    body: UserReqBody,
    existing: Result<Option<User>, StoreError>,
    res: CreateUserStep,
) -> bool {
    &&& existing is Err ==> (res matches CreateUserStep::Respond(r) && is_error_reply(
        r,
        Status::InternalServerError,
        "Issue talking to the database"@,
    ))
    &&& existing matches Ok(Some(_)) ==> (res matches CreateUserStep::Respond(r) && is_error_reply(
        r,
        Status::BadRequest,
        "User with this username exists"@,
    ))
    &&& existing matches Ok(None) ==> {
        ||| res matches CreateUserStep::Respond(r) && is_error_reply(
            r,
            Status::InternalServerError,
            "Issue hashing the password"@,
        )
        ||| res matches CreateUserStep::InsertUser { username, password_hash } && username
            == body.username && password_hash@.len() == 60 && password_hash@.subrange(0, 7)
            == "$2b$12$"@ && bcrypt_verify_outcome(body.password@, password_hash@) == Some(true)
    }
}

/// Sign-up, once the password hash is known: a failed hash is a `500` reply, else the user
/// is inserted with that hash.
pub fn create_user_after_hash(body: &UserReqBody, hashed: Result<String, PasswordError>) -> (res:
    CreateUserStep)
    ensures
        create_user_hash_spec(*body, hashed, res),
{
    match hashed {
        Err(_) => CreateUserStep::Respond(
            ApiResponse::error(Status::InternalServerError, "Issue hashing the password"),
        ),
        Ok(h) => CreateUserStep::InsertUser { username: body.username.clone(), password_hash: h },
    }
}

/// Sign-up, after looking the username up: a failed query is a `500` reply, a taken username
/// a `400` reply; otherwise the password is hashed with bcrypt and the user inserted.
pub fn create_user_after_lookup(body: &UserReqBody, existing: Result<Option<User>, StoreError>) -> (res:
    CreateUserStep)
    ensures
        create_user_lookup_spec(*body, existing, res),
{
    match existing {
        Err(_) => CreateUserStep::Respond(
            ApiResponse::error(Status::InternalServerError, "Issue talking to the database"),
        ),
        Ok(Some(_)) => CreateUserStep::Respond(
            ApiResponse::error(Status::BadRequest, "User with this username exists"),
        ),
        Ok(None) => {
            let hashed = hash_password(body.password.as_str());
            create_user_after_hash(body, hashed)
        },
    }
}

/// Sign-up, after the insert: the reply.
pub fn create_user_after_insert(created: Result<Option<User>, StoreError>) -> (res: ApiResponse)
    ensures
        created is Err ==> is_error_reply(
            res,
            Status::InternalServerError,
            "Issue talking to the database"@,
        ),
        created matches Ok(None) ==> is_error_reply(
            res,
            Status::BadRequest,
            "Issue writing to the database"@,
        ),
        created matches Ok(Some(u)) ==> res == ApiResponse::UserCreated(u),
{
    match created {
        Err(_) => ApiResponse::error(Status::InternalServerError, "Issue talking to the database"),
        Ok(None) => ApiResponse::error(Status::BadRequest, "Issue writing to the database"),
        Ok(Some(u)) => ApiResponse::UserCreated(u),
    }
}

/// The sign-in reply for an outcome of checking the password against the stored hash.
pub open spec fn login_verify_spec(outcome: Option<bool>, res: ApiResponse) -> bool {
    match outcome {
        None => is_error_reply(res, Status::BadRequest, "Issue talking to the database"@),
        Some(false) => is_error_reply(res, Status::BadRequest, "Wrong password"@),
        Some(true) => res == ApiResponse::LoggedIn,
    }
}

/// The sign-in reply once the user was looked up.
pub open spec fn login_lookup_spec(
    body: UserReqBody,
    found: Result<Option<UserWithPassword>, StoreError>,
    res: ApiResponse,
) -> bool {
    &&& found is Err ==> is_error_reply(
        res,
        Status::InternalServerError,
        "Issue talking to the database"@,
    )
    &&& found matches Ok(None) ==> is_error_reply(res, Status::NotFound, "User not found"@)
    &&& found matches Ok(Some(u)) ==> login_verify_spec(
        bcrypt_verify_outcome(body.password@, u.password@),
        res,
    )
}

/// Sign-in, once the password was checked: a failed check is a `400` reply, a wrong password
/// too, a right one `200` with an empty body.
pub fn login_user_after_verify(verified: Result<bool, PasswordError>) -> (res: ApiResponse)
    ensures
        verified is Err ==> is_error_reply(
            res,
            Status::BadRequest,
            "Issue talking to the database"@,
        ),
        verified == Ok::<bool, PasswordError>(false) ==> is_error_reply(
            res,
            Status::BadRequest,
            "Wrong password"@,
        ),
        verified == Ok::<bool, PasswordError>(true) ==> res == ApiResponse::LoggedIn,
{
    match verified {
        Err(_) => ApiResponse::error(Status::BadRequest, "Issue talking to the database"),
        Ok(false) => ApiResponse::error(Status::BadRequest, "Wrong password"),
        Ok(true) => ApiResponse::LoggedIn,
    }
}

/// Sign-in, after looking the user up: a failed query is a `500` reply, an unknown user `404`;
/// otherwise the password is checked against the stored bcrypt hash.
pub fn login_user_after_lookup(
    body: &UserReqBody,
    found: Result<Option<UserWithPassword>, StoreError>,
) -> (res: ApiResponse)
    ensures
        login_lookup_spec(*body, found, res),
{
    match found {
        Err(_) => ApiResponse::error(Status::InternalServerError, "Issue talking to the database"),
        Ok(None) => ApiResponse::error(Status::NotFound, "User not found"),
        Ok(Some(u)) => {
            let verified = verify_password(body.password.as_str(), u.password.as_str());
            login_user_after_verify(verified)
        },
    }
}

/// A password that sign-up stored signs in: when sign-up of `signup` (whose username was free)
/// asked to insert a password hash, and sign-in with the same password finds a row holding
/// that hash, sign-in answers `200`.
pub proof fn lemma_signed_up_password_signs_in(
    signup: UserReqBody,
    step: CreateUserStep,
    login: UserReqBody,
    row: UserWithPassword,
    reply: ApiResponse,
)
    requires
        create_user_lookup_spec(signup, Ok(None), step),
        step matches CreateUserStep::InsertUser { password_hash, .. } && row.password@
            == password_hash@,
        login.password@ == signup.password@,
        login_lookup_spec(login, Ok(Some(row)), reply),
    ensures
        reply == ApiResponse::LoggedIn,
{
}

/// Sign-up never stores the password itself: when a valid sign-up body (whose username was
/// free) leads to an insert, the stored hash differs from the password.
pub proof fn lemma_stored_hash_is_not_plaintext(signup: UserReqBody, step: CreateUserStep)
    requires
        credential_len_ok(signup.password@),
        create_user_lookup_spec(signup, Ok(None), step),
    ensures
        step matches CreateUserStep::InsertUser { password_hash, .. } ==> password_hash@
            != signup.password@,
{
}

/// The reply to a request for the signed-in user: `500` when the request carries no user,
/// else `200` with the user.
pub fn current_user_reply(user: Option<&UserData>) -> (res: ApiResponse)
    ensures
        user is None ==> is_error_reply(
            res,
            Status::InternalServerError,
            "Issue talking to the database"@,
        ),
        user matches Some(u) ==> res == ApiResponse::CurrentUser(*u),
{
    match user {
        None => ApiResponse::error(Status::InternalServerError, "Issue talking to the database"),
        Some(u) => ApiResponse::CurrentUser(
            UserData { user_id: u.user_id, username: u.username.clone() },
        ),
    }
}

} // verus!
