//! Login against encrypted passwords.
use vstd::prelude::*;
use crate::response::{see_other, Redirect, RedirectStatus};

verus! {

/// The submitted login form.
#[derive(Debug, Clone, PartialEq)]
pub struct User {
    pub username: String,
    pub password: String,
}

/// The login decision, given the value the credential query returned:
/// one logs the user in and opens the admin post table; anything else sends
/// the client back to the login page.
pub fn login(login_check_value: i64) -> (r: (bool, Redirect))
    ensures
        r.0 == (login_check_value == 1),
        r.1.status == RedirectStatus::SeeOther,
        login_check_value == 1 ==> r.1.location@ == "/admin/posts/page/1"@,
        login_check_value != 1 ==> r.1.location@ == "/login"@,
{
    if login_check_value == 1 {
        (true, see_other("/admin/posts/page/1"))
    } else {
        (false, see_other("/login"))
    }
}

} // verus!
