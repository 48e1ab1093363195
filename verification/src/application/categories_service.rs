//! Category-related use cases.
use vstd::prelude::*;
use crate::application::posts_service::{plan_listing, spec_listing_plan, ListingPlan};
use crate::domain::category::Category;

verus! {

/// Lists categories for `page_number`, given the number of categories: the
/// page to fetch, or `None` when the page is out of range.
pub fn list_categories(page_number: i64, total_items: i64) -> (r: Option<ListingPlan>)
    ensures
        r == spec_listing_plan(page_number, total_items, false),
{
    plan_listing(page_number, total_items, false)
}

/// Everything needed to render the "edit category" view.
pub struct CategoryEditView {
    pub all_categories: Vec<Category>,
    pub current_name: Vec<Category>,
}

} // verus!
