//! The admin post table, and the counts it pages by.
use vstd::prelude::*;
use crate::controller::admin_pagination::{admin_pagination_main_page, admin_pagination_main_page_text};
use crate::controller::common_controller::{posts_page_count, set_posts_per_page, PageBar};
use crate::adapters::http::auth_guard::require_login;
use crate::response::{Redirect, RedirectStatus};
use crate::domain::pagination::{page_number_seq, page_numbers, spec_total_pages, total_pages};

verus! {

/// The admin post table, given the visitor's identity, the requested page
/// and the number of posts. An anonymous visitor is sent home; otherwise the
/// page numbers and bar to render. Pages out of range are not redirected.
pub fn admin_index<I>(user: &Option<I>, param: i32, total_posts_length: i64) -> (r: Result<
    PageBar,
    Redirect,
>)
    requires
        total_posts_length >= 0,
        spec_total_pages(total_posts_length as int, 3) < usize::MAX,
    ensures
        user is None ==> (r matches Err(redirect) && redirect.status == RedirectStatus::SeeOther
            && redirect.location@ == "/"@),
        user is Some ==> (r matches Ok(bar) && bar.pages_count@ == page_number_seq(
            posts_page_count(total_posts_length) as nat,
        ) && bar.pagination@ == admin_pagination_main_page_text(
            param as usize as nat,
            posts_page_count(total_posts_length) as nat,
        )),
{
    if let Some(redirect) = require_login(user) {
        return Err(redirect);
    }
    let posts_per_page = total_pages(total_posts_length, set_posts_per_page() as i64);
    let count = posts_per_page as usize;
    let pages_count = page_numbers(count);
    let pagination = admin_pagination_main_page(param as usize, count);
    Ok(PageBar { pages_count, pagination })
}

/// Why a `COUNT(*)` query gave no count.
#[derive(Debug, Clone, Copy, PartialEq, Eq, Structural)]
pub enum CountError {
    /// The query returned no row (reported as "error-1").
    NoRows,
    /// The first row's `count` column could not be read (reported as "error-2").
    Unreadable,
}

impl CountError {
    /// The message the error is reported with.
    pub fn message(&self) -> (r: &'static str)
        ensures
            *self == CountError::NoRows ==> r@ == "error-1"@,
            *self == CountError::Unreadable ==> r@ == "error-2"@,
    {
        match self {
            CountError::NoRows => "error-1",
            CountError::Unreadable => "error-2",
        }
    }
}

pub open spec fn spec_first_count(rows: Seq<Option<i64>>) -> Result<i64, CountError> {
    if rows.len() == 0 {
        Err(CountError::NoRows)
    } else {
        match rows[0] {
            Some(count) => Ok(count),
            None => Err(CountError::Unreadable),
        }
    }
}

/// Only the first row counts: a first row whose count was read gives that
/// count, whatever rows follow; one whose count could not be read is an
/// unreadable count; and no rows at all is an error of its own.
pub proof fn lemma_first_count_reads_first_row(first: Option<i64>, rest: Seq<Option<i64>>)
    ensures
        first matches Some(count) ==> spec_first_count(seq![first] + rest) == Ok::<i64, CountError>(count),
        first is None ==> spec_first_count(seq![first] + rest) == Err::<i64, CountError>(CountError::Unreadable),
        spec_first_count(Seq::empty()) == Err::<i64, CountError>(CountError::NoRows),
{
    assert((seq![first] + rest)[0] == first);
}

/// The number of posts, from the rows of `SELECT COUNT(*) FROM posts`, each
/// row's `count` column as read (`None` when it could not be read).
pub fn perfect_pagination_logic(rows: &Vec<Option<i64>>) -> (r: Result<i64, CountError>)
    ensures
        r == spec_first_count(rows@),
{
    if rows.len() == 0 {
        return Err(CountError::NoRows);
    }
    match rows[0] {
        Some(count) => Ok(count),
        None => Err(CountError::Unreadable),
    }
}

/// The number of categories, from the rows of `SELECT COUNT(*) FROM
/// categories`, read as [`perfect_pagination_logic`] reads its rows.
pub fn get_pagination_for_all_categories_list(rows: &Vec<Option<i64>>) -> (r: Result<i64, CountError>)
    ensures
        r == spec_first_count(rows@),
{
    perfect_pagination_logic(rows)
}

} // verus!
