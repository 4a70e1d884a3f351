use vstd::prelude::*;

verus! {

/// How long an access token stays valid, in seconds (one day).
pub const TOKEN_LIFETIME_SECS: u64 = 86400;

/// The claims an access token carries: who the user is and when the token expires
/// (seconds since the Unix epoch).
#[derive(Debug, Clone, PartialEq, Eq)]
pub struct Claims {
    pub user_id: i32,
    pub username: String,
    pub exp: usize,
}

/// The claims of an access token issued at `now_secs` (seconds since the Unix epoch):
/// the user's identity and an expiry one day later.
pub fn claims_for(username: &str, user_id: i32, now_secs: u64) -> (res: Claims)
    requires
        now_secs + TOKEN_LIFETIME_SECS <= u64::MAX,
    ensures
        res.user_id == user_id,
        res.username@ == username@,
        res.exp == (now_secs + TOKEN_LIFETIME_SECS) as usize,
{
    Claims {
        user_id,
        username: String::from_str(username),
        exp: (now_secs + TOKEN_LIFETIME_SECS) as usize,
    }
}

} // verus!
