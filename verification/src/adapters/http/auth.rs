//! The decisions of the login pages.
use vstd::prelude::*;
use crate::response::{see_other, temporary, Redirect, RedirectStatus};

verus! {

/// What a login attempt leads to: whether the session is logged in, the
/// error to flash, and where the client goes next.
#[derive(Debug, Clone, PartialEq)]
pub struct LoginOutcome {
    pub log_in: bool,
    pub flash_error: Option<String>,
    pub redirect: Redirect,
}

/// The login decision: an authenticated user is logged in and sent to the
/// admin post table; otherwise an error is flashed and the client is sent
/// back to the login page.
pub fn login(authenticated: bool) -> (r: LoginOutcome)
    ensures
        r.log_in == authenticated,
        r.redirect.status == RedirectStatus::SeeOther,
        authenticated ==> r.flash_error is None && r.redirect.location@ == "/admin/posts/page/1"@,
        !authenticated ==> (r.flash_error matches Some(m) && m@
            == "Login Fail - Wrong Id or password!"@) && r.redirect.location@ == "/login"@,
{
    if authenticated {
        LoginOutcome {
            log_in: true,
            flash_error: None,
            redirect: see_other("/admin/posts/page/1"),
        }
    } else {
        LoginOutcome {
            log_in: false,
            flash_error: Some(String::from_str("Login Fail - Wrong Id or password!")),
            redirect: see_other("/login"),
        }
    }
}

/// Sends a logged-in user to the admin post table and anyone else home.
pub fn check_user<I>(user: &Option<I>) -> (r: Redirect)
    ensures
        r.status == RedirectStatus::TemporaryRedirect,
        user is Some ==> r.location@ == "/admin/posts/page/1"@,
        user is None ==> r.location@ == "/"@,
{
    if user.is_some() {
        temporary("/admin/posts/page/1")
    } else {
        temporary("/")
    }
}

} // verus!
