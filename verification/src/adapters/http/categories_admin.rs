//! The decisions of the admin category pages.
use vstd::prelude::*;
use crate::adapters::http::listing::{listing_page, ListingPage};
use crate::application::categories_service::list_categories;
use crate::application::posts_service::spec_listing_plan;
use crate::controllers::helpers::pagination_logic::{admin_categories, admin_categories_text};
use crate::domain::category::NewCategory;
use crate::domain::pagination::page_number_seq;
use crate::response::{see_other, FlashRedirect, Redirect, RedirectStatus};

verus! {

/// The admin category table, given the requested page and the number of
/// categories: the page to render, or a redirect to its first page.
pub fn get_all_categories(page_number: i32, total_items: i64) -> (r: Result<ListingPage, Redirect>)
    ensures
        match spec_listing_plan(page_number as i64, total_items, false) {
            Some(plan) => r matches Ok(page) && page.plan == plan && page.pages_count@
                == page_number_seq(plan.page.total as nat) && page.pagination@
                == admin_categories_text(plan.page.current as nat, plan.page.total as nat),
            None => r matches Err(redirect) && redirect.status == RedirectStatus::SeeOther
                && redirect.location@ == "/admin/categories/page/1"@,
        },
{
    match list_categories(page_number as i64, total_items) {
        Some(plan) => {
            let pagination = admin_categories(plan.page.current, plan.page.total);
            Ok(listing_page(plan, pagination))
        },
        None => Err(see_other("/admin/categories/page/1")),
    }
}

/// Checks a submitted category: `None` when it is valid, else a redirect to
/// `redirect_url` that flashes the broken rule's message.
pub fn validate_or_redirect(form: &NewCategory, redirect_url: &str) -> (r: Option<FlashRedirect>)
    ensures
        r is None <==> form.spec_is_valid(),
        r matches Some(rejection) ==> rejection.redirect.status == RedirectStatus::SeeOther
            && rejection.redirect.location@ == redirect_url@ && rejection.flash_error@
            == "category name cannot be empty and minimum should have 2 characters"@,
{
    match form.validate() {
        Ok(()) => None,
        Err(e) => Some(FlashRedirect { redirect: see_other(redirect_url), flash_error: e.message }),
    }
}

} // verus!
