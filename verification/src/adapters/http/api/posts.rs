//! The decisions of the JSON post endpoints.
use vstd::prelude::*;
use crate::adapters::http::api::{error_reply, ApiError, ApiErrorReply, ApiStatus};
use crate::domain::post::NewPost;
use crate::application::posts_service::{list_posts, spec_listing_plan, ListingPlan};

verus! {

/// The query of a listing request.
#[derive(Debug, Clone, PartialEq)]
pub struct PageQuery {
    pub page: Option<i64>,
}

impl PageQuery {
    /// The requested page, page one when none is given.
    pub fn page_number(&self) -> (r: i64)
        ensures
            r == match self.page {
                Some(p) => p,
                None => 1,
            },
    {
        match self.page {
            Some(p) => p,
            None => 1,
        }
    }
}

/// The listing request: the page of posts to fetch, or `404` with "page out
/// of range", given the number of posts.
pub fn list(query: &PageQuery, total_items: i64) -> (r: Result<ListingPlan, ApiErrorReply>)
    ensures
        ({
            let page = match query.page {
                Some(p) => p,
                None => 1,
            };
            match spec_listing_plan(page, total_items, false) {
                Some(plan) => r == Ok::<ListingPlan, ApiErrorReply>(plan),
                None => r matches Err(e) && e.status == ApiStatus::NotFound && e.body.error@
                    == "page out of range"@,
            }
        }),
{
    match list_posts(query.page_number(), total_items) {
        Some(plan) => Ok(plan),
        None => Err(error_reply(ApiStatus::NotFound, "page out of range")),
    }
}

/// The single-post request: the first post found, or `404` with "post not
/// found" when there is none.
pub fn get<P>(posts: Vec<P>) -> (r: Result<P, ApiErrorReply>)
    ensures
        posts@.len() > 0 ==> r == Ok::<P, ApiErrorReply>(posts@[0]),
        posts@.len() == 0 ==> (r matches Err(e) && e.status == ApiStatus::NotFound
            && e.body.error@ == "post not found"@),
{
    let mut posts = posts;
    if posts.len() > 0 {
        Ok(posts.remove(0))
    } else {
        Err(error_reply(ApiStatus::NotFound, "post not found"))
    }
}

/// Checks a submitted post for the create and update endpoints: `None` when
/// it is valid, else `400` with the broken rule's message.
pub fn validate(body: &NewPost) -> (r: Option<ApiErrorReply>)
    ensures
        r is None <==> body.spec_is_valid(),
        r matches Some(reply) ==> reply.status == ApiStatus::BadRequest && (body.title@.len() == 0
            ==> reply.body.error@ == "title cannot be empty"@) && (body.title@.len() > 0
            ==> reply.body.error@ == "description cannot be empty"@),
{
    match body.validate() {
        Ok(()) => None,
        Err(e) => Some(ApiError::json(e.message.as_str())),
    }
}

} // verus!
