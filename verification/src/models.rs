use vstd::prelude::*;

verus! {

/// The identity of the signed-in user, attached to a request by the auth middleware.
#[derive(Debug, Clone, PartialEq, Eq)]
pub struct UserData {
    pub username: String,
    pub user_id: i32,
}

/// A ticket row: the number that the ticket server handed out.
#[derive(Debug, Clone, Copy, PartialEq, Eq)]
pub struct RowTicket {
    pub prev: i32,
}

/// The body of a request to shorten a URL.
#[derive(Debug, Clone, PartialEq, Eq)]
pub struct UrlReqBody {
    pub url: String,
}

/// A stored URL: its short hash, the URL it stands for and the user who created it.
#[derive(Debug, Clone, PartialEq, Eq)]
pub struct UrlFromDB {
    pub hash: String,
    pub original_url: String,
    pub creator_id: i32,
}

/// A user as the API shows it.
#[derive(Debug, Clone, PartialEq, Eq)]
pub struct User {
    pub id: i32,
    pub username: String,
}

/// The body of a sign-up or sign-in request.
#[derive(Debug, Clone, PartialEq, Eq)]
pub struct UserReqBody {
    pub username: String,
    pub password: String,
}

/// A user row together with its password hash.
#[derive(Debug, Clone, PartialEq, Eq)]
pub struct UserWithPassword {
    pub id: i32,
    pub username: String,
    pub password: String,
}

/// A failed query against a database.
#[derive(Debug, Clone, Copy, PartialEq, Eq)]
pub struct StoreError;

} // verus!
