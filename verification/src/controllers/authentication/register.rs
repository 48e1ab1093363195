//! Registration with an Argon2 password hash.
use vstd::prelude::*;
use vstd::string::StringSliceAdditionalSpecFns;
use crate::controllers::authentication::password_hashing::{
    argon2_hash_with_salt, argon2_verifies, generate_salt, hash_password, phc_string_parses,
};
use crate::response::{see_other, Redirect, RedirectStatus};

verus! {

/// The text of an optional string.
pub open spec fn option_text(s: Option<String>) -> Option<Seq<char>> {
    match s {
        Some(h) => Some(h@),
        None => None,
    }
}

/// The password hash a new account is stored with: the Argon2 PHC string of
/// `password` under a fresh random salt, or `None` when hashing fails (the
/// page then answers with an internal error). The result is what Argon2
/// gives for the password under the salt that was drawn; a hash that comes
/// back parses and verifies the password it was made from; and hashing
/// succeeds for every password within Argon2's length limit.
pub fn register(password: &str) -> (r: Option<String>)
    ensures
        password.spec_bytes().len() <= 0xFFFF_FFFF ==> r is Some,
        exists|salt: Seq<char>| option_text(r) == argon2_hash_with_salt(password@, salt),
        r matches Some(h) ==> phc_string_parses(h@) && argon2_verifies(password@, h@),
{
    let salt = generate_salt();
    let r = hash_password(password, salt.as_str());
    assert(option_text(r) == argon2_hash_with_salt(password@, salt@));
    r
}

/// Where a registered user is sent: the login page.
pub fn registered() -> (r: Redirect)
    ensures
        r.status == RedirectStatus::SeeOther,
        r.location@ == "/login"@,
{
    see_other("/login")
}

} // verus!
