//! Argon2 password hashes in PHC string format.
use vstd::prelude::*;
use vstd::string::StringSliceAdditionalSpecFns;
use argon2::password_hash::rand_core::OsRng;
use argon2::password_hash::{PasswordHash, SaltString};
use argon2::{Argon2, PasswordHasher, PasswordVerifier};

verus! {

/// Whether `PasswordHash::new` accepts the text as a PHC string.
pub uninterp spec fn phc_string_parses(phc: Seq<char>) -> bool;

/// Whether `Argon2::default().verify_password` accepts `password` against the
/// PHC string `phc`.
pub uninterp spec fn argon2_verifies(password: Seq<char>, phc: Seq<char>) -> bool;

/// The PHC string of `Argon2::default().hash_password(password, salt)`, for
/// the B64 salt `salt`; `None` when the salt is not valid B64 or hashing fails.
pub uninterp spec fn argon2_hash_with_salt(password: Seq<char>, salt: Seq<char>) -> Option<Seq<char>>;

/// A character of the standard Base64 alphabet.
pub open spec fn is_b64_char(c: char) -> bool {
    ('A' <= c && c <= 'Z') || ('a' <= c && c <= 'z') || ('0' <= c && c <= '9') || c == '+' || c
        == '/'
}

/// The unpadded standard Base64 text of sixteen bytes: twenty-two alphabet
/// characters, the last of which carries two data bits and four zero bits
/// (so it is `A`, `Q`, `g` or `w`).
pub open spec fn is_b64_of_16_bytes(s: Seq<char>) -> bool {
    &&& s.len() == 22
    &&& forall|i: int| 0 <= i < 22 ==> is_b64_char(#[trigger] s[i])
    &&& (s[21] == 'A' || s[21] == 'Q' || s[21] == 'g' || s[21] == 'w')
}

/// Calls `PasswordHash::new(phc)` and reports whether it parsed. Claimed:
/// the answer is the named predicate of the text.
#[verifier::external_body]
pub(crate) fn phc_parses(phc: &str) -> (r: bool)
    ensures
        r == phc_string_parses(phc@),
{
    PasswordHash::new(phc).is_ok()
}

/// Parses `phc` with `PasswordHash::new` and calls
/// `Argon2::default().verify_password(password, &parsed)`. Claimed: the
/// answer is the named predicate of the two texts.
#[verifier::external_body]
pub(crate) fn verify_password(password: &str, phc: &str) -> (r: bool)
    requires
        phc_string_parses(phc@),
    ensures
        r == argon2_verifies(password@, phc@),
{
    match PasswordHash::new(phc) {
        Ok(parsed) => Argon2::default().verify_password(password.as_bytes(), &parsed).is_ok(),
        Err(_) => false,
    }
}

/// Calls `SaltString::generate(&mut OsRng)` and returns the salt's B64 text.
/// The salt is random; what is claimed is its form: sixteen bytes
/// (`Salt::RECOMMENDED_LENGTH`) encoded as unpadded standard Base64.
#[verifier::external_body]
pub(crate) fn generate_salt() -> (r: String)
    ensures
        is_b64_of_16_bytes(r@),
{
    SaltString::generate(&mut OsRng).as_str().to_string()
}

/// Reads `salt` with `SaltString::from_b64` and calls
/// `Argon2::default().hash_password(password, &salt)`, returning the PHC
/// string. Claimed: the result is the named function of the two texts; a
/// produced hash parses as a PHC string and verifies `password`; and hashing
/// succeeds for a sixteen-byte B64 salt (valid for `SaltString::from_b64`,
/// and at least the eight bytes Argon2 asks for) and a password within
/// Argon2's limit of `0xFFFF_FFFF` bytes, the other inputs being Argon2's
/// defaults.
#[verifier::external_body]
pub(crate) fn hash_password(password: &str, salt: &str) -> (r: Option<String>)
    ensures
        match r {
            Some(h) => argon2_hash_with_salt(password@, salt@) == Some(h@),
            None => argon2_hash_with_salt(password@, salt@) is None,
        },
        r matches Some(h) ==> phc_string_parses(h@) && argon2_verifies(password@, h@),
        is_b64_of_16_bytes(salt@) && password.spec_bytes().len() <= 0xFFFF_FFFF ==> r is Some,
{
    let salt = match SaltString::from_b64(salt) {
        Ok(s) => s,
        Err(_) => return None,
    };
    match Argon2::default().hash_password(password.as_bytes(), &salt) {
        Ok(hash) => Some(hash.to_string()),
        Err(_) => None,
    }
}

} // verus!
