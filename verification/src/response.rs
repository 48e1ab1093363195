//! What a handler answers, as plain values: redirects and status codes that
//! the HTTP layer turns into responses.
use vstd::prelude::*;

verus! {

/// The status line of a redirect.
#[derive(Debug, Clone, Copy, PartialEq, Eq, Structural)]
pub enum RedirectStatus {
    /// `303 See Other`.
    SeeOther,
    /// `307 Temporary Redirect`.
    TemporaryRedirect,
}

/// A redirect to `location`.
#[derive(Debug, Clone, PartialEq, Eq)]
pub struct Redirect {
    pub status: RedirectStatus,
    pub location: String,
}

/// A `303 See Other` redirect to `location`.
pub fn see_other(location: &str) -> (r: Redirect)
    ensures
        r.status == RedirectStatus::SeeOther,
        r.location@ == location@,
{
    Redirect { status: RedirectStatus::SeeOther, location: String::from_str(location) }
}

/// A `307 Temporary Redirect` to `location`.
pub fn temporary(location: &str) -> (r: Redirect)
    ensures
        r.status == RedirectStatus::TemporaryRedirect,
        r.location@ == location@,
{
    Redirect { status: RedirectStatus::TemporaryRedirect, location: String::from_str(location) }
}

/// A redirect that also flashes an error message to the next page.
#[derive(Debug, Clone, PartialEq)]
pub struct FlashRedirect {
    pub redirect: Redirect,
    pub flash_error: String,
}

} // verus!
