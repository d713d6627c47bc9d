//! Passwords and API secrets under Argon2: hashing with a fresh salt, and
//! checking a candidate against a stored hash in PHC string format.
use vstd::prelude::*;

use argon2::password_hash::rand_core::OsRng;
use argon2::password_hash::SaltString;
use argon2::{Argon2, PasswordHash, PasswordHasher, PasswordVerifier};
use vstd::string::StringSliceAdditionalSpecFns;

verus! {

broadcast use vstd::string::group_string_axioms;

/// What checking `password` against the PHC string `hash` with Argon2's
/// default configuration gives: `Ok(true)` when the password matches,
/// `Ok(false)` when it does not, and the parse error's text when `hash` is
/// not a PHC string.
pub uninterp spec fn argon2_outcome(password: Seq<u8>, hash: Seq<char>) -> Result<bool, Seq<char>>;

/// `PasswordHash::new` followed by `Argon2::default().verify_password`
/// (argon2 / password-hash crates): parses `hash` and checks `password`
/// against it. The contract names the outcome (see `argon2_outcome`); the
/// outcome depends on the two arguments alone, as the salt and parameters
/// are read from `hash`.
#[verifier::external_body]
fn argon2_check(password: &[u8], hash: &str) -> (r: Result<bool, String>)
    ensures
        match r {
            Ok(b) => argon2_outcome(password@, hash@) == Ok::<bool, Seq<char>>(b),
            Err(e) => argon2_outcome(password@, hash@) == Err::<bool, Seq<char>>(e@),
        },
{
    match PasswordHash::new(hash) {
        Ok(parsed) => Ok(Argon2::default().verify_password(password, &parsed).is_ok()),
        Err(e) => Err(e.to_string()),
    }
}

/// `Argon2::default().hash_password` with a salt from `SaltString::generate`
/// on `OsRng`: the PHC string of `password` under a fresh random salt, or
/// `None` when hashing fails. What holds of every outcome: a hash that comes
/// back accepts `password` (the verifier recomputes the hash with the salt
/// and parameters that the PHC string carries). Hashing fails only for a
/// password over `0xFFFFFFFF` bytes: with the default parameters and a
/// generated salt (16 bytes, within the 8 to 64 that `verify_inputs`
/// allows) the only other refusal of `verify_inputs` cannot arise. The
/// salt, and so the text, is left unsaid, and so is the text of a hashing
/// error.
#[verifier::external_body]
fn argon2_hash(password: &[u8]) -> (r: Option<String>)
    ensures
        match r {
            Some(h) => argon2_outcome(password@, h@) == Ok::<bool, Seq<char>>(true),
            None => true,
        },
        password@.len() <= 0xFFFF_FFFF ==> r is Some,
{
    let salt = SaltString::generate(&mut OsRng);
    match Argon2::default().hash_password(password, &salt) {
        Ok(h) => Some(h.to_string()),
        Err(_) => None,
    }
}

/// The Argon2 hash (PHC string) under which a password or secret is stored,
/// or `None` when hashing failed, which happens only for a password over
/// `0xFFFFFFFF` bytes.
pub fn hash_password(password: &str) -> (r: Option<String>)
    ensures
        r matches Some(h) ==> argon2_outcome(password.spec_bytes(), h@) == Ok::<bool, Seq<char>>(
            true,
        ),
        password.spec_bytes().len() <= 0xFFFF_FFFF ==> r is Some,
{
    argon2_hash(password.as_bytes())
}

/// Whether `password` matches the stored Argon2 hash; the text of the parse
/// error when the stored value is not a PHC string.
pub fn verify_password(password: &str, hash: &str) -> (r: Result<bool, String>)
    ensures
        match r {
            Ok(b) => argon2_outcome(password.spec_bytes(), hash@) == Ok::<bool, Seq<char>>(b),
            Err(e) => argon2_outcome(password.spec_bytes(), hash@) == Err::<bool, Seq<char>>(e@),
        },
{
    argon2_check(password.as_bytes(), hash)
}

/// A password that Argon2 can hash: at most `0xFFFFFFFF` bytes in UTF-8.
pub open spec fn hashable(password: Seq<char>) -> bool {
    vstd::utf8::encode_utf8(password).len() <= 0xFFFF_FFFF
}

/// Whether `password` is accepted by the stored hash: a hash that cannot be
/// parsed accepts nothing.
pub open spec fn accepts(password: Seq<u8>, hash: Seq<char>) -> bool {
    argon2_outcome(password, hash) == Ok::<bool, Seq<char>>(true)
}

/// Whether `password` is accepted by the stored hash.
pub fn password_matches(password: &str, hash: &str) -> (r: bool)
    ensures
        r == accepts(password.spec_bytes(), hash@),
{
    match verify_password(password, hash) {
        Ok(b) => b,
        Err(_) => false,
    }
}

} // verus!
