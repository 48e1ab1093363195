//! The login guard of the admin pages.
use vstd::prelude::*;
use crate::response::{see_other, Redirect, RedirectStatus};

verus! {

/// Returns a redirect-to-home when no user is logged in, so admin handlers
/// can return early; `None` when a user is logged in.
pub fn require_login<I>(user: &Option<I>) -> (r: Option<Redirect>)
    ensures
        r is None <==> user is Some,
        r matches Some(redirect) ==> redirect.status == RedirectStatus::SeeOther
            && redirect.location@ == "/"@,
{
    if user.is_some() {
        return None;
    }
    Some(see_other("/"))
}

} // verus!
