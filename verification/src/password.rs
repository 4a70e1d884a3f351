use vstd::prelude::*;

verus! {

/// The bcrypt cost with which passwords are hashed.
pub const PASSWORD_HASH_COST: u32 = 12;

#[verifier::external_type_specification]
#[verifier::external_body]
pub struct ExBcryptError(bcrypt::BcryptError);

/// What `bcrypt::verify(password, hash)` answers: `Some(matches)`, or `None` where it fails
/// (a malformed hash).
pub uninterp spec fn bcrypt_verify_outcome(password: Seq<char>, hash: Seq<char>) -> Option<bool>;

/// The character of the decimal digit `d` (for `d` below 10).
pub open spec fn decimal_digit(d: nat) -> char {
    (48 + d) as char
}

/// The first seven characters of a bcrypt hash made at `cost` (below 100): `$2b$`, the cost
/// in two decimal digits, and `$`.
pub open spec fn bcrypt_prefix(cost: nat) -> Seq<char> {
    seq!['$', '2', 'b', '$', decimal_digit(cost / 10), decimal_digit(cost % 10), '$']
}

/// A password could not be hashed, or checked against a hash.
#[derive(Debug, Clone, Copy, PartialEq, Eq, Structural)]
pub enum PasswordError {
    Hashing,
    Verifying,
}

/// Calls `bcrypt::hash(password, cost)`. The salt is random, so the hash itself is not named;
/// the contract states what the crate's source shows of every hash it returns: the cost was
/// in 4..=31, the hash is the 60-character `$2b$` form beginning with `bcrypt_prefix(cost)`,
/// and checking the same password against it with `bcrypt::verify` succeeds and answers
/// `true`. It does not state when hashing with an allowed cost fails (no randomness from the
/// system).
#[verifier::external_body]
fn bcrypt_hash(password: &str, cost: u32) -> (res: Result<String, bcrypt::BcryptError>)
    ensures
        res matches Ok(h) ==> 4 <= cost <= 31 && h@.len() == 60 && h@.subrange(0, 7)
            == bcrypt_prefix(cost as nat),
        res matches Ok(h) ==> bcrypt_verify_outcome(password@, h@) == Some(true),
{
    bcrypt::hash(password, cost)
}

/// Calls `bcrypt::verify(password, hash)`; the contract names its outcome `bcrypt_verify_outcome`.
#[verifier::external_body]
fn bcrypt_verify(password: &str, hash: &str) -> (res: Result<bool, bcrypt::BcryptError>)
    ensures
        match res {
            Ok(b) => bcrypt_verify_outcome(password@, hash@) == Some(b),
            Err(_) => bcrypt_verify_outcome(password@, hash@) is None,
        },
{
    bcrypt::verify(password, hash)
}

/// Hashes a password with bcrypt at cost 12 and a random salt.
/// Whatever hash comes back is a 60-character cost-12 bcrypt hash that the same password
/// verifies against; a failure is reported as `PasswordError::Hashing`.
pub fn hash_password(password: &str) -> (res: Result<String, PasswordError>)
    ensures
        res matches Ok(h) ==> h@.len() == 60 && h@.subrange(0, 7) == "$2b$12$"@,
        res matches Ok(h) ==> bcrypt_verify_outcome(password@, h@) == Some(true),
        res is Err ==> res == Err::<String, PasswordError>(PasswordError::Hashing),
{
    proof {
        reveal_strlit("$2b$12$");
        assert(bcrypt_prefix(PASSWORD_HASH_COST as nat) =~= "$2b$12$"@);
    }
    match bcrypt_hash(password, PASSWORD_HASH_COST) {
        Ok(h) => Ok(h),
        Err(_) => Err(PasswordError::Hashing),
    }
}

/// Checks a password against a bcrypt hash.
pub fn verify_password(password: &str, hash: &str) -> (res: Result<bool, PasswordError>)
    ensures
        match bcrypt_verify_outcome(password@, hash@) {
            Some(b) => res == Ok::<bool, PasswordError>(b),
            None => res == Err::<bool, PasswordError>(PasswordError::Verifying),
        },
{
    match bcrypt_verify(password, hash) {
        Ok(b) => Ok(b),
        Err(_) => Err(PasswordError::Verifying),
    }
}

} // verus!
