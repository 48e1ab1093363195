//! The JSON API's error bodies, page bodies and login guard.
pub mod auth;
pub mod posts;

use vstd::prelude::*;
use vstd::std_specs::convert::FromSpecImpl;
use crate::domain::pagination::Listing;

verus! {

/// The status of a JSON API reply.
#[derive(Debug, Clone, Copy, PartialEq, Eq, Structural)]
pub enum ApiStatus {
    /// `200 OK`.
    Success,
    Created,
    NoContent,
    BadRequest,
    Unauthorized,
    NotFound,
}

/// A uniform error body for every non-2xx API response.
#[derive(Debug, Clone, PartialEq)]
pub struct ApiError {
    pub error: String,
}

/// A JSON API error reply: a status and an [`ApiError`] body.
#[derive(Debug, Clone, PartialEq)]
pub struct ApiErrorReply {
    pub status: ApiStatus,
    pub body: ApiError,
}

/// An error reply with `status` and the message `message`.
pub fn error_reply(status: ApiStatus, message: &str) -> (r: ApiErrorReply)
    ensures
        r.status == status,
        r.body.error@ == message@,
{
    ApiErrorReply { status, body: ApiError { error: String::from_str(message) } }
}

impl ApiError {
    /// A `400 Bad Request` reply carrying `message`.
    pub fn json(message: &str) -> (r: ApiErrorReply)
        ensures
            r.status == ApiStatus::BadRequest,
            r.body.error@ == message@,
    {
        error_reply(ApiStatus::BadRequest, message)
    }
}

/// A page of items, shaped for JSON clients (mirrors [`Listing`]).
#[derive(Debug, Clone, PartialEq)]
pub struct PageResponse<T> {
    pub items: Vec<T>,
    pub page: usize,
    pub total_pages: usize,
    pub total_items: i64,
}

impl<T> From<Listing<T>> for PageResponse<T> {
    fn from(listing: Listing<T>) -> (r: Self) {
        PageResponse {
            items: listing.items,
            page: listing.page.current,
            total_pages: listing.page.total,
            total_items: listing.total_items,
        }
    }
}

impl<T> FromSpecImpl<Listing<T>> for PageResponse<T> {
    open spec fn obeys_from_spec() -> bool {
        true
    }

    open spec fn from_spec(listing: Listing<T>) -> Self {
        PageResponse {
            items: listing.items,
            page: listing.page.current,
            total_pages: listing.page.total,
            total_items: listing.total_items,
        }
    }
}

/// Returns a `401` reply when no user is logged in.
pub fn require_login<I>(user: &Option<I>) -> (r: Option<ApiErrorReply>)
    ensures
        r is None <==> user is Some,
        r matches Some(reply) ==> reply.status == ApiStatus::Unauthorized && reply.body.error@
            == "authentication required"@,
{
    if user.is_some() {
        return None;
    }
    Some(error_reply(ApiStatus::Unauthorized, "authentication required"))
}

} // verus!
