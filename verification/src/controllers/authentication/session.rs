//! Login against Argon2 password hashes.
use vstd::prelude::*;
use crate::adapters::http::auth::{login as login_outcome, LoginOutcome};
use crate::controllers::authentication::password_hashing::{
    argon2_verifies, phc_parses, phc_string_parses, verify_password,
};
use crate::response::RedirectStatus;

verus! {

/// The submitted login form.
#[derive(Debug, Clone, PartialEq)]
pub struct User {
    pub username: String,
    pub password: String,
}

/// A stored password hash, as the user table returns it.
#[derive(Debug, Clone, PartialEq)]
pub struct Password {
    pub password: String,
}

/// Why a login could not be decided.
#[derive(Debug, Clone, Copy, PartialEq, Eq, Structural)]
pub enum LoginError {
    /// The stored hash (or the stand-in for a missing user) is not a PHC
    /// string; the page answers with an internal error.
    InvalidStoredHash,
}

/// The hash a login is checked against: the stored one, or the text
/// "asdasd" when none could be read.
pub open spec fn checked_hash(stored_hash: Option<String>) -> Seq<char> {
    match stored_hash {
        Some(h) => h@,
        None => "asdasd"@,
    }
}

/// Whether the login succeeds (`Ok(true)`), fails (`Ok(false)`), or cannot
/// be decided, given the stored hash and the submitted password.
pub open spec fn login_verdict(stored_hash: Option<String>, password: Seq<char>) -> Result<bool, LoginError> {
    if phc_string_parses(checked_hash(stored_hash)) {
        Ok(argon2_verifies(password, checked_hash(stored_hash)))
    } else {
        Err(LoginError::InvalidStoredHash)
    }
}

/// The login decision, given the stored hash of the user (`None` when it
/// could not be read) and the submitted password.
pub fn login(stored_hash: Option<String>, password: &str) -> (r: Result<LoginOutcome, LoginError>)
    ensures
        match login_verdict(stored_hash, password@) {
            Err(e) => r == Err::<LoginOutcome, LoginError>(e),
            Ok(matched) => r matches Ok(outcome) && outcome.log_in == matched && outcome.redirect.status
            == RedirectStatus::SeeOther && (outcome.log_in ==> outcome.flash_error is None
            && outcome.redirect.location@ == "/admin/posts/page/1"@) && (!outcome.log_in ==> (
        outcome.flash_error matches Some(m) && m@ == "Login Fail - Wrong Id or password!"@)
            && outcome.redirect.location@ == "/login"@),
        },
{
    let hash = match stored_hash {
        Some(h) => h,
        None => String::from_str("asdasd"),
    };
    if !phc_parses(hash.as_str()) {
        return Err(LoginError::InvalidStoredHash);
    }
    let matched = verify_password(password, hash.as_str());
    Ok(login_outcome(matched))
}

/// A password that registration hashed logs in against the stored hash: every
/// hash that [`register`](crate::controllers::authentication::register::register)
/// can return for a password parses and verifies it, so the login verdict on
/// it is a success.
pub proof fn lemma_registered_password_logs_in(password: Seq<char>, stored: String)
    requires
        phc_string_parses(stored@),
        argon2_verifies(password, stored@),
    ensures
        login_verdict(Some(stored), password) == Ok::<bool, LoginError>(true),
{
}

} // verus!
