//! The decisions of the guest pages.
use vstd::prelude::*;
use crate::adapters::http::listing::{category_url, listing_page, ListingPage};
use crate::application::posts_service::{list_posts, list_posts_for_category, spec_listing_plan};
use crate::controllers::helpers::pagination_logic::{
    general_category, general_category_text, index_pagination, index_pagination_text,
};
use crate::domain::pagination::page_number_seq;
use crate::response::{see_other, temporary, Redirect, RedirectStatus};

verus! {

/// The site root sends guests to the first page of posts.
pub fn redirect_user() -> (r: Redirect)
    ensures
        r.status == RedirectStatus::TemporaryRedirect,
        r.location@ == "/posts/page/1"@,
{
    temporary("/posts/page/1")
}

/// The guest listing of posts, given the requested page and the number of
/// posts: the page to render, or a redirect to page one when out of range.
pub fn index(page_number: i32, total_items: i64) -> (r: Result<ListingPage, Redirect>)
    ensures
        match spec_listing_plan(page_number as i64, total_items, false) {
            Some(plan) => r matches Ok(page) && page.plan == plan && page.pages_count@
                == page_number_seq(plan.page.total as nat) && page.pagination@
                == index_pagination_text(plan.page.current as nat, plan.page.total as nat),
            None => r matches Err(redirect) && redirect.status == RedirectStatus::SeeOther
                && redirect.location@ == "/posts/page/1"@,
        },
{
    match list_posts(page_number as i64, total_items) {
        Some(plan) => {
            let pagination = index_pagination(plan.page.current, plan.page.total);
            Ok(listing_page(plan, pagination))
        },
        None => Err(see_other("/posts/page/1")),
    }
}

/// The site's first page of posts, given the number of posts: the page to
/// render (with no pagination bar), or a redirect to page one when there are
/// no posts.
pub fn index_redirect(total_items: i64) -> (r: Result<ListingPage, Redirect>)
    ensures
        match spec_listing_plan(1, total_items, false) {
            Some(plan) => r matches Ok(page) && page.plan == plan && page.pages_count@
                == page_number_seq(plan.page.total as nat) && page.pagination@ == Seq::<char>::empty(),
            None => r matches Err(redirect) && redirect.status == RedirectStatus::SeeOther
                && redirect.location@ == "/posts/page/1"@,
        },
{
    match list_posts(1, total_items) {
        Some(plan) => Ok(listing_page(plan, String::new())),
        None => Err(see_other("/posts/page/1")),
    }
}

/// A guest category listing, given the category as it appears in the path,
/// the requested page and the number of posts in the category.
pub fn get_category_posts(category_input: &str, page_number: u32, total_items: i64) -> (r: Result<
    ListingPage,
    Redirect,
>)
    ensures
        match spec_listing_plan(page_number as i64, total_items, true) {
            Some(plan) => r matches Ok(page) && page.plan == plan && page.pages_count@
                == page_number_seq(plan.page.total as nat) && page.pagination@
                == general_category_text(
                plan.page.current as nat,
                plan.page.total as nat,
                category_input@,
            ),
            None => r matches Err(redirect) && redirect.status == RedirectStatus::SeeOther
                && redirect.location@ == "/posts/category/"@ + category_input@ + "/page/1"@,
        },
{
    match list_posts_for_category(page_number as i64, total_items) {
        Some(plan) => {
            let pagination = general_category(plan.page.current, plan.page.total, category_input);
            Ok(listing_page(plan, pagination))
        },
        None => {
            let url = category_url("/posts/category/", category_input, "/page/1");
            Err(see_other(url.as_str()))
        },
    }
}

} // verus!
