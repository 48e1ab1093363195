//! Post-related use cases: the decisions between the repository calls.
use vstd::prelude::*;
use crate::domain::category::Category;
use crate::domain::pagination::{
    lemma_resolve_page_in_range, resolve_page, spec_resolve_page, spec_total_pages, Page,
    DEFAULT_PAGE_SIZE,
};

verus! {

/// A resolved page, with the arguments the repository is asked for its items.
#[derive(Debug, Clone, Copy, PartialEq, Eq)]
pub struct ListingPlan {
    pub page: Page,
    /// The page number handed to the repository: the current page as an `i32`.
    pub page_number: i32,
    /// The page size handed to the repository.
    pub per_page: i64,
}

/// The plan for page `page`: fetch page `page.current` at the default page size.
pub open spec fn spec_plan(page: Page) -> ListingPlan {
    ListingPlan { page, page_number: page.current as i32, per_page: DEFAULT_PAGE_SIZE }
}

pub open spec fn spec_listing_plan(
    page_number: i64,
    total_items: i64,
    clamp_min_one_page: bool,
) -> Option<ListingPlan> {
    match spec_resolve_page(page_number, total_items, DEFAULT_PAGE_SIZE, clamp_min_one_page) {
        Some(page) => Some(spec_plan(page)),
        None => None,
    }
}

/// A listing plan exists exactly when the requested page lies between one
/// and the page count of the items at three per page (one page at least when
/// clamping); the plan then fetches the requested page, three items to a
/// page, against that page count.
pub proof fn lemma_listing_plan_fetches_requested_page(
    page_number: i64,
    total_items: i64,
    clamp_min_one_page: bool,
)
    requires
        0 <= total_items <= usize::MAX,
        0 <= page_number <= usize::MAX,
    ensures
        ({
            let pages = spec_total_pages(total_items as int, 3);
            let count = if clamp_min_one_page && pages < 1 { 1 } else { pages };
            &&& (spec_listing_plan(page_number, total_items, clamp_min_one_page) is Some) == (1
                <= page_number <= count)
            &&& spec_listing_plan(page_number, total_items, clamp_min_one_page) matches Some(plan)
                ==> plan.per_page == 3 && plan.page.current == page_number && plan.page.total
                == count && (page_number <= i32::MAX ==> plan.page_number == page_number)
        }),
{
    lemma_resolve_page_in_range(page_number, total_items, 3, clamp_min_one_page);
}

pub fn plan_listing(page_number: i64, total_items: i64, clamp_min_one_page: bool) -> (r: Option<
    ListingPlan,
>)
    ensures
        r == spec_listing_plan(page_number, total_items, clamp_min_one_page),
{
    match resolve_page(page_number, total_items, DEFAULT_PAGE_SIZE, clamp_min_one_page) {
        Some(page) => Some(
            ListingPlan { page, page_number: page.current as i32, per_page: DEFAULT_PAGE_SIZE },
        ),
        None => None,
    }
}

/// Lists posts for `page_number`, given the number of posts: the page to
/// fetch, or `None` when the page is out of range.
pub fn list_posts(page_number: i64, total_items: i64) -> (r: Option<ListingPlan>)
    ensures
        r == spec_listing_plan(page_number, total_items, false),
{
    plan_listing(page_number, total_items, false)
}

/// Lists posts within a category for `page_number`, given the number of posts
/// in it. A category with no posts still resolves to a single empty page
/// rather than `None`, so visiting its listing never redirect-loops.
pub fn list_posts_for_category(page_number: i64, total_items: i64) -> (r: Option<ListingPlan>)
    ensures
        r == spec_listing_plan(page_number, total_items, true),
{
    plan_listing(page_number, total_items, true)
}

/// How a new post is stored.
#[derive(Debug, Clone, Copy, PartialEq, Eq, Structural)]
pub enum PostCreation {
    /// Category id zero: the post is stored without a category.
    WithoutCategory,
    /// The post is stored under the given category.
    WithCategory(i32),
}

/// How a new post with the submitted category is stored.
pub open spec fn spec_create_post(category_id: i32) -> PostCreation {
    if category_id == 0 {
        PostCreation::WithoutCategory
    } else {
        PostCreation::WithCategory(category_id)
    }
}

/// The category a new post is filed under; zero for none.
pub open spec fn created_under(c: PostCreation) -> int {
    match c {
        PostCreation::WithoutCategory => 0,
        PostCreation::WithCategory(id) => id as int,
    }
}

/// A new post is filed under exactly the submitted category, and under
/// none when zero is submitted.
pub proof fn lemma_create_files_under_submitted(category_id: i32)
    ensures
        created_under(spec_create_post(category_id)) == category_id,
        (spec_create_post(category_id) is WithoutCategory) <==> category_id == 0,
{
}

/// Chooses how a new post with `category_id` is stored.
pub fn create_post(category_id: i32) -> (r: PostCreation)
    ensures
        r == spec_create_post(category_id),
{
    if category_id == 0 {
        PostCreation::WithoutCategory
    } else {
        PostCreation::WithCategory(category_id)
    }
}

/// How an updated post is stored.
#[derive(Debug, Clone, Copy, PartialEq, Eq, Structural)]
pub enum PostUpdate {
    /// The post had no category: the update attaches the submitted one.
    AttachCategory(i32),
    /// The submitted category is zero: the post is updated without a category.
    WithoutCategory,
    /// The post is updated and moved to the submitted category.
    Update(i32),
}

pub open spec fn spec_update_post(current_category_id: Option<i32>, submitted_category_id: i32) -> PostUpdate {
    let current = match current_category_id {
        Some(id) => id,
        None => 0,
    };
    if current == 0 {
        PostUpdate::AttachCategory(submitted_category_id)
    } else if submitted_category_id == 0 {
        PostUpdate::WithoutCategory
    } else {
        PostUpdate::Update(submitted_category_id)
    }
}

/// The category an updated post ends up filed under; zero for none.
pub open spec fn updated_under(u: PostUpdate) -> int {
    match u {
        PostUpdate::AttachCategory(id) => id as int,
        PostUpdate::WithoutCategory => 0,
        PostUpdate::Update(id) => id as int,
    }
}

/// An update files the post under exactly the submitted category (none for
/// zero), whatever category it had, the same one included; it attaches the
/// category exactly when the post had none (or it could not be read), and
/// stores the post without a category exactly when it had one and zero is
/// submitted.
pub proof fn lemma_update_files_under_submitted(current_category_id: Option<i32>, submitted_category_id: i32)
    ensures
        updated_under(spec_update_post(current_category_id, submitted_category_id))
            == submitted_category_id,
        (spec_update_post(current_category_id, submitted_category_id) is AttachCategory) <==> (
        current_category_id == None::<i32> || current_category_id == Some(0i32)),
        (spec_update_post(current_category_id, submitted_category_id) is WithoutCategory) <==> (
        submitted_category_id == 0 && current_category_id != None::<i32> && current_category_id
            != Some(0i32)),
{
}

/// Chooses the persistence path of an update, from the post's current
/// category (`None` when it could not be read, which counts as zero) and the
/// submitted one.
pub fn update_post(current_category_id: Option<i32>, submitted_category_id: i32) -> (r: PostUpdate)
    ensures
        r == spec_update_post(current_category_id, submitted_category_id),
{
    let current = match current_category_id {
        Some(id) => id,
        None => 0,
    };
    if current == 0 {
        PostUpdate::AttachCategory(submitted_category_id)
    } else if submitted_category_id == 0 {
        PostUpdate::WithoutCategory
    } else {
        PostUpdate::Update(submitted_category_id)
    }
}

/// Everything needed to render the "edit post" view.
pub struct PostEditView<P> {
    pub post: Vec<P>,
    pub category_info: Vec<Category>,
    pub other_categories: Vec<Category>,
}

} // verus!
