//! The data of a rendered listing page, and the redirect URLs of listings.
use vstd::prelude::*;
use crate::application::posts_service::ListingPlan;
use crate::domain::pagination::{page_number_seq, page_numbers};

verus! {

/// What a listing page is rendered from, besides its items: the plan that
/// fetched them, the page numbers, and the pagination bar.
#[derive(Debug, Clone, PartialEq)]
pub struct ListingPage {
    pub plan: ListingPlan,
    /// `1..=plan.page.total`.
    pub pages_count: Vec<usize>,
    pub pagination: String,
}

/// The page for `plan` with the pagination bar `pagination`.
pub fn listing_page(plan: ListingPlan, pagination: String) -> (r: ListingPage)
    ensures
        r.plan == plan,
        r.pages_count@ == page_number_seq(plan.page.total as nat),
        r.pagination@ == pagination@,
{
    let pages_count = page_numbers(plan.page.total);
    ListingPage { plan, pages_count, pagination }
}

/// `prefix + category + suffix`, the URL of a category listing.
pub fn category_url(prefix: &str, category_input: &str, suffix: &str) -> (r: String)
    ensures
        r@ == prefix@ + category_input@ + suffix@,
{
    let mut s = String::from_str(prefix);
    s.append(category_input);
    s.append(suffix);
    s
}

} // verus!
