//! Admin post controllers.
use vstd::prelude::*;
use crate::application::posts_service::{create_post, PostCreation};
use crate::response::{see_other, temporary, Redirect, RedirectStatus};

verus! {

/// A new post: how it is stored, and where the client goes next.
pub fn new_posts(category_id: i32) -> (r: (PostCreation, Redirect))
    ensures
        r.0 == (if category_id == 0 {
            PostCreation::WithoutCategory
        } else {
            PostCreation::WithCategory(category_id)
        }),
        r.1.status == RedirectStatus::TemporaryRedirect,
        r.1.location@ == "/admin/posts/page/1"@,
{
    (create_post(category_id), temporary("/admin/posts/page/1"))
}

/// How an updated post is stored, by its submitted category.
#[derive(Debug, Clone, Copy, PartialEq, Eq, Structural)]
pub enum PostRevision {
    /// The submitted category is zero: the post is updated without a category.
    WithoutCategory,
    /// The post is updated and moved to the submitted category.
    WithCategory(i32),
}

/// An updated post: how it is stored, and where the client goes next.
pub fn update_post(category_id: i32) -> (r: (PostRevision, Redirect))
    ensures
        r.0 == (if category_id == 0 {
            PostRevision::WithoutCategory
        } else {
            PostRevision::WithCategory(category_id)
        }),
        r.1.status == RedirectStatus::SeeOther,
        r.1.location@ == "/admin/posts/page/1"@,
{
    let revision = if category_id == 0 {
        PostRevision::WithoutCategory
    } else {
        PostRevision::WithCategory(category_id)
    };
    (revision, see_other("/admin/posts/page/1"))
}

/// Hands back the id it is given.
pub fn update_post_helper(ids: &String) -> (r: &String)
    ensures
        r == ids,
{
    ids
}

} // verus!
