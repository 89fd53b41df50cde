//! Password hashing with bcrypt.
use vstd::prelude::*;
use crate::errors::{AppError, AppResult, ErrorKind};

verus! {

/// What `bcrypt::verify` answers for `password` against the stored `hash`:
/// `Some(matches)`, or `None` when the hash cannot be read.
pub uninterp spec fn bcrypt_verifies(password: Seq<char>, hash: Seq<char>) -> Option<bool>;

#[verifier::external_type_specification]
#[verifier::external_body]
pub struct ExBcryptError(bcrypt::BcryptError);

/// Hashes `password` with a fresh random salt at the default cost.
/// Trusted: `bcrypt::hash` fails only when no random salt can be drawn, and a
/// hash it returns is accepted by `bcrypt::verify` for the same password (it
/// recomputes the hash with the salt and cost written in it).
#[verifier::external_body]
fn bcrypt_hash(password: &str) -> (res: Result<String, bcrypt::BcryptError>)
    ensures
        res matches Ok(h) ==> bcrypt_verifies(password@, h@) == Some(true),
{
    bcrypt::hash(password, bcrypt::DEFAULT_COST)
}

/// Checks `password` against a stored bcrypt hash.
/// Trusted: `bcrypt::verify` is a function of its two arguments, named
/// `bcrypt_verifies`; it fails when the hash is malformed.
#[verifier::external_body]
fn bcrypt_verify(password: &str, hash: &str) -> (res: Result<bool, bcrypt::BcryptError>)
    ensures
        match res {
            Ok(b) => bcrypt_verifies(password@, hash@) == Some(b),
            Err(_) => bcrypt_verifies(password@, hash@) is None,
        },
{
    bcrypt::verify(password, hash)
}

/// A bcrypt hash of `password`, or an internal error when hashing fails.
pub fn hash_password(password: &str) -> (res: AppResult<String>)
    ensures
        res matches Ok(h) ==> bcrypt_verifies(password@, h@) == Some(true),
        res matches Err(e) ==> e.is(ErrorKind::Internal, "Failed to hash password"@),
{
    match bcrypt_hash(password) {
        Ok(h) => Ok(h),
        Err(_) => Err(AppError::new(ErrorKind::Internal, "Failed to hash password")),
    }
}

/// Whether `password` matches a stored hash; an unreadable hash never matches.
pub open spec fn password_matches(password: Seq<char>, hash: Seq<char>) -> bool {
    bcrypt_verifies(password, hash) == Some(true)
}

/// Whether `password` matches the stored hash `hash`.
pub fn check_password(password: &str, hash: &str) -> (b: bool)
    ensures
        b == password_matches(password@, hash@),
{
    match bcrypt_verify(password, hash) {
        Ok(b) => b,
        Err(_) => false,
    }
}

/// The stored hash of an account, the empty text when it has none.
pub open spec fn stored_hash(password: Option<String>) -> Seq<char> {
    match password {
        Some(p) => p@,
        None => Seq::empty(),
    }
}

/// Whether `password` matches an account's stored hash (none never matches
/// a readable hash).
pub fn check_account_password(password: &str, stored: &Option<String>) -> (b: bool)
    ensures
        b == password_matches(password@, stored_hash(*stored)),
{
    match stored {
        Some(h) => {
            let hs = h.as_str();
            let b = check_password(password, hs);
            assert(hs@ == stored_hash(*stored));
            b
        },
        None => {
            proof {
                reveal_strlit("");
            }
            let b = check_password(password, "");
            assert(""@ =~= Seq::<char>::empty());
            b
        },
    }
}

} // verus!
