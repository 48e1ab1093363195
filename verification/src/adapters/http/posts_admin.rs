//! The decisions of the admin post pages.
use vstd::prelude::*;
use crate::adapters::http::listing::{category_url, listing_page, ListingPage};
use crate::application::posts_service::{list_posts, list_posts_for_category, spec_listing_plan};
use crate::controllers::helpers::pagination_logic::{
    admin_category_posts, admin_category_posts_text, admin_main_page, admin_main_page_text,
};
use crate::domain::pagination::page_number_seq;
use crate::domain::post::NewPost;
use crate::response::{see_other, FlashRedirect, Redirect, RedirectStatus};

verus! {

/// The admin post table, given the requested page and the number of posts:
/// the page to render, or a redirect to its first page when out of range.
pub fn admin_index(page_number: i32, total_items: i64) -> (r: Result<ListingPage, Redirect>)
    ensures
        match spec_listing_plan(page_number as i64, total_items, false) {
            Some(plan) => r matches Ok(page) && page.plan == plan && page.pages_count@
                == page_number_seq(plan.page.total as nat) && page.pagination@
                == admin_main_page_text(plan.page.current as nat, plan.page.total as nat),
            None => r matches Err(redirect) && redirect.status == RedirectStatus::SeeOther
                && redirect.location@ == "/admin/posts/page/1"@,
        },
{
    match list_posts(page_number as i64, total_items) {
        Some(plan) => {
            let pagination = admin_main_page(plan.page.current, plan.page.total);
            Ok(listing_page(plan, pagination))
        },
        None => Err(see_other("/admin/posts/page/1")),
    }
}

/// An admin category listing, given the category as it appears in the path,
/// the requested page and the number of posts in the category.
pub fn get_categories_posts(category_input: &str, page_number: i32, total_items: i64) -> (r: Result<
    ListingPage,
    Redirect,
>)
    ensures
        match spec_listing_plan(page_number as i64, total_items, true) {
            Some(plan) => r matches Ok(page) && page.plan == plan && page.pages_count@
                == page_number_seq(plan.page.total as nat) && page.pagination@
                == admin_category_posts_text(
                plan.page.current as nat,
                plan.page.total as nat,
                category_input@,
            ),
            None => r matches Err(redirect) && redirect.status == RedirectStatus::SeeOther
                && redirect.location@ == "/admin/categories/"@ + category_input@ + "/page/1"@,
        },
{
    match list_posts_for_category(page_number as i64, total_items) {
        Some(plan) => {
            let pagination = admin_category_posts(
                plan.page.current,
                plan.page.total,
                String::from_str(category_input),
            );
            Ok(listing_page(plan, pagination))
        },
        None => {
            let url = category_url("/admin/categories/", category_input, "/page/1");
            Err(see_other(url.as_str()))
        },
    }
}

/// Checks a submitted post: `None` when it is valid, else a redirect to
/// `redirect_url` that flashes the broken rule's message.
pub fn validate_or_redirect(form: &NewPost, redirect_url: &str) -> (r: Option<FlashRedirect>)
    ensures
        r is None <==> form.spec_is_valid(),
        r matches Some(rejection) ==> rejection.redirect.status == RedirectStatus::SeeOther
            && rejection.redirect.location@ == redirect_url@ && (form.title@.len() == 0
            ==> rejection.flash_error@ == "title cannot be empty"@) && (form.title@.len() > 0
            ==> rejection.flash_error@ == "description cannot be empty"@),
{
    match form.validate() {
        Ok(()) => None,
        Err(e) => Some(FlashRedirect { redirect: see_other(redirect_url), flash_error: e.message }),
    }
}

} // verus!
