use vstd::prelude::*;
use validator::{ValidateLength, ValidateUrl};
use crate::models::{UrlReqBody, UserReqBody};
use crate::responses::ValidationErrorsToBeReturned;

verus! {

/// The fewest characters a username or a password may have.
pub const MIN_CREDENTIAL_LEN: u64 = 6;

/// The most characters a username or a password may have.
pub const MAX_CREDENTIAL_LEN: u64 = 20;

/// Whether `validator` accepts `url` as a URL (it parses it with the `url` crate).
pub uninterp spec fn url_is_valid(url: Seq<char>) -> bool;

/// Calls `validator::ValidateLength::validate_length` on a string with a lower and an upper bound.
/// For strings the crate measures the length in characters (`chars().count()`), and the value
/// passes when `min <= length <= max`; the contract states exactly that.
#[verifier::external_body]
fn length_within(value: &str, min: u64, max: u64) -> (res: bool)
    ensures
        res == (min <= value@.len() && value@.len() <= max),
{
    value.validate_length(Some(min), Some(max), None)
}

/// Calls `validator::ValidateUrl::validate_url` on a string; the contract names its result
/// `url_is_valid` (the crate answers whether `url::Url::parse` accepts the string).
#[verifier::external_body]
fn url_accepted(url: &str) -> (res: bool)
    ensures
        res == url_is_valid(url@),
{
    url.validate_url()
}

/// A username or password length is accepted.
pub open spec fn credential_len_ok(value: Seq<char>) -> bool {
    MIN_CREDENTIAL_LEN <= value.len() && value.len() <= MAX_CREDENTIAL_LEN
}

/// The messages that validating a sign-up or sign-in body produces, one per failing field,
/// the username's first.
pub open spec fn user_validation_messages(username: Seq<char>, password: Seq<char>) -> Seq<Seq<char>> {
    (if credential_len_ok(username) {
        Seq::empty()
    } else {
        seq!["Username should be between 6 and 20 length"@]
    }) + (if credential_len_ok(password) {
        Seq::empty()
    } else {
        seq!["Password should be between 6 and 20 length"@]
    })
}

/// The messages that validating a URL body produces.
pub open spec fn url_validation_messages(url: Seq<char>) -> Seq<Seq<char>> {
    if url_is_valid(url) {
        Seq::empty()
    } else {
        seq!["The provided URL is not valid."@]
    }
}

/// The views of a list of messages.
pub open spec fn message_views(messages: Seq<String>) -> Seq<Seq<char>> {
    messages.map_values(|m: String| m@)
}

impl UserReqBody {
    /// Checks that the username and the password each have 6 to 20 characters.
    pub fn validate(&self) -> (res: Result<(), ValidationErrorsToBeReturned>)
        ensures
            res is Ok <==> (credential_len_ok(self.username@) && credential_len_ok(self.password@)),
            res matches Err(e) ==> message_views(e.errors@) == user_validation_messages(
                self.username@,
                self.password@,
            ),
    {
        let mut errors: Vec<String> = Vec::new();
        if !length_within(self.username.as_str(), MIN_CREDENTIAL_LEN, MAX_CREDENTIAL_LEN) {
            errors.push(String::from_str("Username should be between 6 and 20 length"));
        }
        if !length_within(self.password.as_str(), MIN_CREDENTIAL_LEN, MAX_CREDENTIAL_LEN) {
            errors.push(String::from_str("Password should be between 6 and 20 length"));
        }
        assert(message_views(errors@) =~= user_validation_messages(self.username@, self.password@));
        if errors.len() == 0 {
            Ok(())
        } else {
            Err(ValidationErrorsToBeReturned { errors })
        }
    }
}

impl UrlReqBody {
    /// Checks that the URL parses as a URL.
    pub fn validate(&self) -> (res: Result<(), ValidationErrorsToBeReturned>)
        ensures
            res is Ok <==> url_is_valid(self.url@),
            res matches Err(e) ==> message_views(e.errors@) == url_validation_messages(self.url@),
    {
        if url_accepted(self.url.as_str()) {
            Ok(())
        } else {
            let mut errors: Vec<String> = Vec::new();
            errors.push(String::from_str("The provided URL is not valid."));
            assert(message_views(errors@) =~= url_validation_messages(self.url@));
            Err(ValidationErrorsToBeReturned { errors })
        }
    }
}

} // verus!
