//! The decisions of the JSON authentication endpoints.
use vstd::prelude::*;
use crate::adapters::http::api::{error_reply, ApiErrorReply, ApiStatus};

verus! {

/// The JSON login decision: `None` (log in and answer with the username)
/// when authenticated, else `401` with "invalid username or password".
pub fn login(authenticated: bool) -> (r: Option<ApiErrorReply>)
    ensures
        r is None <==> authenticated,
        r matches Some(reply) ==> reply.status == ApiStatus::Unauthorized && reply.body.error@
            == "invalid username or password"@,
{
    if authenticated {
        None
    } else {
        Some(error_reply(ApiStatus::Unauthorized, "invalid username or password"))
    }
}

} // verus!
