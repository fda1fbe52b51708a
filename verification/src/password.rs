use vstd::prelude::*;

verus! {

/// The error type of bcrypt. Only that there was an error is ever used.
#[verifier::external_type_specification]
#[verifier::external_body]
pub struct ExBcryptError(bcrypt::BcryptError);

/// What `bcrypt::verify` makes of a password and a stored hash: whether they
/// match, or `None` where the hash is none that it can read.
pub uninterp spec fn bcrypt_matches(password: Seq<char>, hash: Seq<char>) -> Option<bool>;

/// Calls `bcrypt::verify`. Nothing is proved of the answer: the contract
/// only gives it its name, `bcrypt_matches`, which rests on the check
/// computing from the password and the hash alone.
#[verifier::external_body]
fn bcrypt_verify(password: &str, hash: &str) -> (r: Result<bool, bcrypt::BcryptError>)
    ensures
        match r {
            Ok(same) => bcrypt_matches(password@, hash@) == Some(same),
            Err(_) => bcrypt_matches(password@, hash@) is None,
        },
{
    bcrypt::verify(password, hash)
}

/// Calls `bcrypt::hash` at `bcrypt::DEFAULT_COST`. The salt is drawn at
/// random, so two calls on one password differ and nothing is said of the
/// hash.
#[verifier::external_body]
fn bcrypt_hash(password: &str) -> (r: Result<String, bcrypt::BcryptError>) {
    bcrypt::hash(password, bcrypt::DEFAULT_COST)
}

/// Hashes a password for storage, or gives `None` where no hash could be
/// made. Which hash comes out is not determined by the password, but it is
/// checked against the password before it is handed out: a hash that comes
/// out of here matches the password it was made of.
pub fn hash_password(password: &str) -> (hash: Option<String>)
    ensures
        hash matches Some(h) ==> bcrypt_matches(password@, h@) == Some(true),
{
    match bcrypt_hash(password) {
        Ok(hash) => checked_hash(password, Some(hash)),
        Err(_) => checked_hash(password, None),
    }
}

/// The view of a hash that may not have been made.
pub open spec fn hash_view(password_hash: Option<String>) -> Option<Seq<char>> {
    match password_hash {
        Some(hash) => Some(hash@),
        None => None,
    }
}

/// What is kept of a hash that was just made of `password`: the hash itself
/// where there is one and it matches the password, else nothing.
pub open spec fn spec_checked_hash(password: Seq<char>, made: Option<Seq<char>>) -> Option<
    Seq<char>,
> {
    match made {
        Some(hash) => if bcrypt_matches(password, hash) == Some(true) {
            Some(hash)
        } else {
            None
        },
        None => None,
    }
}

/// Checks a hash that was just made against the password it was made of,
/// and keeps it only if it matches: see `spec_checked_hash`.
pub fn checked_hash(password: &str, made: Option<String>) -> (hash: Option<String>)
    ensures
        hash_view(hash) == spec_checked_hash(password@, hash_view(made)),
{
    match made {
        Some(hash) => match check_password(password, hash.as_str()) {
            Some(true) => Some(hash),
            _ => None,
        },
        None => None,
    }
}

/// Checks a password against a stored hash: `Some(true)` where they match,
/// `Some(false)` where they do not, `None` where the hash cannot be read.
pub fn check_password(password: &str, hash: &str) -> (same: Option<bool>)
    ensures
        same == bcrypt_matches(password@, hash@),
{
    match bcrypt_verify(password, hash) {
        Ok(same) => Some(same),
        Err(_) => None,
    }
}

} // verus!
