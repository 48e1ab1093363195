//! The admin post controllers.
use vstd::prelude::*;
use crate::adapters::http::listing::{category_url, listing_page, ListingPage};
use crate::application::posts_service::{
    create_post, spec_plan, spec_update_post, update_post as decide_update, ListingPlan,
    PostCreation, PostUpdate,
};
use crate::controllers::guests::posts::SET_POSTS_PER_PAGE;
use crate::controllers::helpers::pagination_logic::{
    admin_category_posts, admin_category_posts_text, admin_main_page, admin_main_page_text,
    resolve_current_page,
};
use crate::domain::pagination::{
    page_number_seq, page_number_seq_i64, page_numbers_i64, spec_resolve_page, spec_total_pages,
    total_pages, Page,
};
use crate::response::{see_other, Redirect, RedirectStatus};

verus! {

/// A new post: how it is stored, and where the client goes next.
pub fn new_post(category_id: i32) -> (r: (PostCreation, Redirect))
    ensures
        r.0 == (if category_id == 0 {
            PostCreation::WithoutCategory
        } else {
            PostCreation::WithCategory(category_id)
        }),
        r.1.status == RedirectStatus::SeeOther,
        r.1.location@ == "/admin/posts/page/1"@,
{
    (create_post(category_id), see_other("/admin/posts/page/1"))
}

/// An updated post, given the post's current category (`None` when it
/// could not be read) and the submitted one: how it is stored, and where
/// the client goes next.
pub fn update_post(current_category_id: Option<i32>, category_id: i32) -> (r: (PostUpdate, Redirect))
    ensures
        r.0 == spec_update_post(current_category_id, category_id),
        r.1.status == RedirectStatus::SeeOther,
        r.1.location@ == "/admin/posts/page/1"@,
{
    (decide_update(current_category_id, category_id), see_other("/admin/posts/page/1"))
}

/// The data of an admin category listing: its page numbers (counted without
/// the one-page clamp), its bar, and the page number and size its posts are
/// fetched with.
#[derive(Debug, Clone, PartialEq)]
pub struct CategoryListing {
    pub pages_count: Vec<i64>,
    pub pagination: String,
    pub page_number: i32,
    pub per_page: i64,
}

/// An admin category listing, given the category as it appears in the path,
/// the requested page and the number of posts in the category.
pub fn get_categories_posts(category_input: String, params: i32, total_posts_length: i64) -> (r:
    Result<CategoryListing, Redirect>)
    ensures
        match spec_resolve_page(params as i64, total_posts_length, SET_POSTS_PER_PAGE, true) {
            Some(page) => r matches Ok(listing) && listing.pages_count@ == page_number_seq_i64(
                spec_total_pages(total_posts_length as int, SET_POSTS_PER_PAGE as int),
            ) && listing.pagination@ == admin_category_posts_text(
                page.current as nat,
                page.total as nat,
                category_input@,
            ) && listing.page_number == params && listing.per_page == SET_POSTS_PER_PAGE,
            None => r matches Err(redirect) && redirect.status == RedirectStatus::SeeOther
                && redirect.location@ == "/admin/categories/"@ + category_input@ + "/page/1"@,
        },
{
    let pages_count = page_numbers_i64(total_pages(total_posts_length, SET_POSTS_PER_PAGE));
    let redirect_url = category_url("/admin/categories/", category_input.as_str(), "/page/1");
    let (current_page, count) = match resolve_current_page(
        params as i64,
        total_posts_length,
        SET_POSTS_PER_PAGE,
        true,
        redirect_url.as_str(),
    ) {
        Ok(resolved) => resolved,
        Err(redirect) => return Err(redirect),
    };
    let pagination = admin_category_posts(current_page, count, category_input.clone());
    Ok(CategoryListing { pages_count, pagination, page_number: params, per_page: SET_POSTS_PER_PAGE })
}

/// The admin post table, given the requested page and the number of posts:
/// the page to render, or a redirect to its first page when out of range.
pub fn admin_index(param: i32, total_posts_length: i64) -> (r: Result<ListingPage, Redirect>)
    ensures
        match spec_resolve_page(param as i64, total_posts_length, SET_POSTS_PER_PAGE, false) {
            Some(page) => r matches Ok(listing) && listing.plan == spec_plan(page)
                && listing.pages_count@ == page_number_seq(page.total as nat)
                && listing.pagination@ == admin_main_page_text(page.current as nat, page.total as nat),
            None => r matches Err(redirect) && redirect.status == RedirectStatus::SeeOther
                && redirect.location@ == "/admin/posts/page/1"@,
        },
{
    let (current_page, count) = match resolve_current_page(
        param as i64,
        total_posts_length,
        SET_POSTS_PER_PAGE,
        false,
        "/admin/posts/page/1",
    ) {
        Ok(resolved) => resolved,
        Err(redirect) => return Err(redirect),
    };
    let pagination = admin_main_page(current_page, count);
    let plan = ListingPlan {
        page: Page { current: current_page, total: count },
        page_number: current_page as i32,
        per_page: SET_POSTS_PER_PAGE,
    };
    Ok(listing_page(plan, pagination))
}

} // verus!
