//! Admin category controllers.
use vstd::prelude::*;
use crate::controller::General_pagination::{
    general_pagination_with_category, general_pagination_with_category_text,
};
use crate::controller::admin_pagination::{
    admin_pagination_with_category, admin_pagination_with_category_text,
};
use crate::controller::category_controller::CategoryPageBar;
use crate::controller::common_controller::{posts_page_count, set_posts_per_page, PageBar};
use crate::adapters::http::auth_guard::require_login;
use crate::response::{Redirect, RedirectStatus};
use crate::domain::pagination::{
    page_number_seq, page_number_seq_i64, page_numbers, page_numbers_i64, spec_total_pages,
    total_pages,
};

verus! {

/// The admin category table, given the visitor's identity, the requested
/// page and the number of categories. An anonymous visitor is sent home;
/// otherwise the page numbers and bar to render, and the page size its
/// categories are fetched with. Pages out of range are not redirected.
pub fn get_all_categories<I>(user: &Option<I>, param: i32, total_posts_length: i64) -> (r: Result<
    (PageBar, i32),
    Redirect,
>)
    requires
        total_posts_length >= 0,
        spec_total_pages(total_posts_length as int, 3) < usize::MAX,
    ensures
        user is None ==> (r matches Err(redirect) && redirect.status == RedirectStatus::SeeOther
            && redirect.location@ == "/"@),
        user is Some ==> (r matches Ok((bar, per_page)) && bar.pages_count@ == page_number_seq(
            posts_page_count(total_posts_length) as nat,
        ) && bar.pagination@ == admin_pagination_with_category_text(
            param as usize as nat,
            posts_page_count(total_posts_length) as nat,
        ) && per_page == 3),
{
    if let Some(redirect) = require_login(user) {
        return Err(redirect);
    }
    let posts_per_page = total_pages(total_posts_length, set_posts_per_page() as i64);
    let count = posts_per_page as usize;
    let pages_count = page_numbers(count);
    let pagination = admin_pagination_with_category(param as usize, count);
    Ok((PageBar { pages_count, pagination }, set_posts_per_page()))
}

/// A guest category listing, given the category as it appears in the path,
/// the requested page and the number of posts in the category: the page
/// numbers, the bar, and the page number and size its posts are fetched
/// with. Pages out of range are not redirected.
pub fn get_category_posts(category_input: &String, par: u32, total_posts_length: i64) -> (r:
    CategoryPageBar)
    requires
        total_posts_length >= 0,
        spec_total_pages(total_posts_length as int, 3) < usize::MAX,
    ensures
        r.pages_count@ == page_number_seq_i64(spec_total_pages(total_posts_length as int, 3)),
        r.pagination@ == general_pagination_with_category_text(
            par as i32 as usize as nat,
            r.pages_count@.len(),
            category_input@,
            false,
        ),
        r.page_number == par as i32,
        r.per_page == 3,
{
    let posts_per_page = total_pages(total_posts_length, set_posts_per_page() as i64);
    let pages_count = page_numbers_i64(posts_per_page);
    let page_number = par as i32;
    let pagination = general_pagination_with_category(
        page_number as usize,
        pages_count.len(),
        category_input,
        false,
    );
    CategoryPageBar { pages_count, pagination, page_number, per_page: set_posts_per_page() as i64 }
}

} // verus!
