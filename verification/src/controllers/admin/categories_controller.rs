//! The admin category controllers.
use vstd::prelude::*;
use crate::adapters::http::listing::{listing_page, ListingPage};
use crate::application::posts_service::{spec_plan, ListingPlan};
use crate::controllers::guests::posts::SET_POSTS_PER_PAGE;
use crate::controllers::helpers::pagination_logic::{
    admin_categories, admin_categories_text, resolve_current_page,
};
use crate::domain::pagination::{page_number_seq, spec_resolve_page, Page};
use crate::response::{Redirect, RedirectStatus};

verus! {

/// The admin category table, given the requested page and the number of
/// categories: the page to render, or a redirect to its first page.
pub fn get_all_categories(param: i32, total_posts_length: i64) -> (r: Result<ListingPage, Redirect>)
    ensures
        match spec_resolve_page(param as i64, total_posts_length, SET_POSTS_PER_PAGE, false) {
            Some(page) => r matches Ok(listing) && listing.plan == spec_plan(page)
                && listing.pages_count@ == page_number_seq(page.total as nat)
                && listing.pagination@ == admin_categories_text(page.current as nat, page.total as nat),
            None => r matches Err(redirect) && redirect.status == RedirectStatus::SeeOther
                && redirect.location@ == "/admin/categories/page/1"@,
        },
{
    let (current_page, count) = match resolve_current_page(
        param as i64,
        total_posts_length,
        SET_POSTS_PER_PAGE,
        false,
        "/admin/categories/page/1",
    ) {
        Ok(resolved) => resolved,
        Err(redirect) => return Err(redirect),
    };
    let pagination = admin_categories(current_page, count);
    let plan = ListingPlan {
        page: Page { current: current_page, total: count },
        page_number: current_page as i32,
        per_page: SET_POSTS_PER_PAGE,
    };
    Ok(listing_page(plan, pagination))
}

} // verus!
