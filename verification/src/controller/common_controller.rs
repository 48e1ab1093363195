//! Guest listing controllers.
use vstd::prelude::*;
use crate::controller::General_pagination::{general_pagination, general_pagination_text};
use crate::domain::pagination::{page_number_seq, page_numbers, spec_total_pages, total_pages};
use crate::response::{see_other, temporary, Redirect, RedirectStatus};

verus! {

/// The site root sends guests to the first page of posts.
pub fn redirect_user() -> (r: Redirect)
    ensures
        r.status == RedirectStatus::TemporaryRedirect,
        r.location@ == "/posts/page/1"@,
{
    temporary("/posts/page/1")
}

/// The number of posts per listing page.
pub fn set_posts_per_page() -> (r: i32)
    ensures
        r == 3,
{
    3
}

/// The page count of `total` posts at three per page, as a `usize`.
pub open spec fn posts_page_count(total: i64) -> usize {
    spec_total_pages(total as int, 3) as usize
}

/// The page numbers and pagination bar a listing is rendered with.
#[derive(Debug, Clone, PartialEq)]
pub struct PageBar {
    pub pages_count: Vec<usize>,
    pub pagination: String,
}

/// The guest listing, given the requested page and the number of posts: the
/// page numbers and bar to render, or a redirect to page one when the page
/// is out of range.
pub fn new_common_page_controller(param: i32, total_posts_length: i64) -> (r: Result<
    PageBar,
    Redirect,
>)
    requires
        total_posts_length >= 0,
        spec_total_pages(total_posts_length as int, 3) < usize::MAX,
    ensures
        ({
            let count = posts_page_count(total_posts_length);
            let cp = param as usize;
            if cp > count || cp == 0 {
                r matches Err(redirect) && redirect.status == RedirectStatus::SeeOther
                    && redirect.location@ == "/posts/page/1"@
            } else {
                r matches Ok(bar) && bar.pages_count@ == page_number_seq(count as nat)
                    && bar.pagination@ == general_pagination_text(cp as nat, count as nat)
            }
        }),
{
    let posts_per_page = total_pages(total_posts_length, set_posts_per_page() as i64);
    let count = posts_per_page as usize;
    let cp = param as usize;
    if cp > count || cp == 0 {
        return Err(see_other("/posts/page/1"));
    }
    let pages_count = page_numbers(count);
    let pagination = general_pagination(cp, count);
    Ok(PageBar { pages_count, pagination })
}

/// The page numbers of the trial listing, given the number of posts.
pub fn new_common_page_controller_test(total_posts_length: i64) -> (r: Vec<usize>)
    requires
        total_posts_length >= 0,
    ensures
        r@ == page_number_seq(posts_page_count(total_posts_length) as nat),
{
    let posts_per_page = total_pages(total_posts_length, set_posts_per_page() as i64);
    page_numbers(posts_per_page as usize)
}

/// The page numbers of the first page of posts, given the number of posts.
/// The page's bookkeeping removes the entry after page one from its page
/// list, which fails when there is exactly one page.
pub fn main_page(total_posts_length: i64) -> (r: Vec<usize>)
    requires
        total_posts_length >= 0,
        posts_page_count(total_posts_length) != 1,
    ensures
        r@ == page_number_seq(posts_page_count(total_posts_length) as nat),
{
    let posts_per_page = total_pages(total_posts_length, set_posts_per_page() as i64);
    page_numbers(posts_per_page as usize)
}

} // verus!
