//! The guest listing controllers.
use vstd::prelude::*;
use crate::adapters::http::listing::category_url;
use crate::controllers::helpers::pagination_logic::{
    general_category, general_category_text, index_pagination, index_pagination_text,
};
use crate::domain::pagination::{abs, lemma_total_pages_rounds_up, spec_total_pages, trunc_div};
use crate::response::{see_other, temporary, FlashRedirect, Redirect, RedirectStatus};

verus! {

/// The number of posts per listing page.
pub const SET_POSTS_PER_PAGE: i64 = 3;

/// The page count the guest listings compute: `(total + 2) / 3`.
pub open spec fn guest_page_count(total_posts: i64) -> int {
    trunc_div(total_posts + SET_POSTS_PER_PAGE - 1, SET_POSTS_PER_PAGE as int)
}

/// For a nonnegative number of posts, the guest listings' page count
/// `(total + 2) / 3` is the page count of the other listings.
pub proof fn lemma_guest_page_count_agrees(total_posts: i64)
    requires
        total_posts >= 0,
        total_posts <= i64::MAX - SET_POSTS_PER_PAGE,
    ensures
        guest_page_count(total_posts) == spec_total_pages(total_posts as int, SET_POSTS_PER_PAGE as int),
{
    lemma_total_pages_rounds_up(total_posts, SET_POSTS_PER_PAGE);
}

/// The site root sends guests to the first page of posts.
pub fn redirect_user() -> (r: Redirect)
    ensures
        r.status == RedirectStatus::TemporaryRedirect,
        r.location@ == "/posts/page/1"@,
{
    temporary("/posts/page/1")
}

fn page_count(total_posts: i64) -> (r: i64)
    requires
        total_posts <= i64::MAX - SET_POSTS_PER_PAGE,
    ensures
        r == guest_page_count(total_posts),
{
    (total_posts + SET_POSTS_PER_PAGE - 1) / SET_POSTS_PER_PAGE
}

/// All pending flash messages, run together.
pub open spec fn flash_concat(messages: Seq<String>) -> Seq<char>
    decreases messages.len(),
{
    if messages.len() == 0 {
        Seq::empty()
    } else {
        flash_concat(messages.drop_last()) + messages.last()@
    }
}

/// The guest listing renders messages one after another, in order, run together:
/// rendering two lists of messages in turn gives the rendering of the
/// first list followed by that of the second, and a single message renders
/// as its own text.
pub proof fn lemma_flash_concat_in_order(first: Seq<String>, second: Seq<String>, message: String)
    ensures
        flash_concat(first + second) == flash_concat(first) + flash_concat(second),
        flash_concat(seq![message]) == message@,
    decreases second.len(),
{
    assert(seq![message].drop_last() =~= Seq::<String>::empty());
    assert(flash_concat(Seq::<String>::empty()) =~= Seq::<char>::empty());
    if second.len() == 0 {
        assert(first + second =~= first);
        assert(flash_concat(first) + flash_concat(second) =~= flash_concat(first));
    } else {
        lemma_flash_concat_in_order(first, second.drop_last(), message);
        assert((first + second).drop_last() =~= first + second.drop_last());
        assert((first + second).last() == second.last());
        assert(flash_concat(first + second) =~= flash_concat(first) + flash_concat(second));
    }
}

/// Runs the pending flash messages together, as the guest listing shows them.
pub fn flash_text(messages: &Vec<String>) -> (r: String)
    ensures
        r@ == flash_concat(messages@),
{
    let mut html = String::new();
    let mut i: usize = 0;
    while i < messages.len()
        invariant
            i <= messages@.len(),
            html@ == flash_concat(messages@.take(i as int)),
        decreases messages@.len() - i,
    {
        let ghost before = messages@.take(i as int);
        html.append(messages[i].as_str());
        i = i + 1;
        assert(messages@.take(i as int).drop_last() =~= before);
    }
    assert(messages@.take(i as int) =~= messages@);
    html
}

/// The guest listing, given the requested page and the number of posts: its
/// pagination bar, or a redirect to page one flashing "wrong page number"
/// when the page is zero or past the last page.
pub fn index(current_page: i32, total_posts: i64) -> (r: Result<String, FlashRedirect>)
    requires
        total_posts <= i64::MAX - SET_POSTS_PER_PAGE,
    ensures
        ({
            let count = guest_page_count(total_posts) as i64;
            if current_page > count as i32 || current_page == 0 {
                r matches Err(e) && e.redirect.status == RedirectStatus::SeeOther
                    && e.redirect.location@ == "/posts/page/1"@ && e.flash_error@
                    == "wrong page number"@
            } else {
                r matches Ok(bar) && bar@ == index_pagination_text(
                    current_page as usize as nat,
                    count as usize as nat,
                )
            }
        }),
{
    let total_pages_count = page_count(total_posts);
    if current_page > total_pages_count as i32 || current_page == 0 {
        return Err(
            FlashRedirect {
                redirect: see_other("/posts/page/1"),
                flash_error: String::from_str("wrong page number"),
            },
        );
    }
    Ok(index_pagination(current_page as usize, total_pages_count as usize))
}

/// The page count of a guest category listing: the guest page count, raised
/// to one, so that a category with no posts shows one empty page.
pub open spec fn guest_category_page_count(total_posts: i64) -> int {
    let count = guest_page_count(total_posts);
    if count < 1 { 1 } else { count }
}

/// A guest category listing, given the category as it appears in the path,
/// the requested page and the number of posts in the category: its
/// pagination bar and the page number its posts are fetched with, or a
/// redirect to the category's first page when the page is zero or past the
/// last page. A category with no posts has one (empty) page, so its first
/// page always renders.
pub fn get_category_based_posts(category_id: &str, current_page: u32, total_posts_length: i64) -> (r:
    Result<(String, i32), Redirect>)
    requires
        total_posts_length <= i64::MAX - SET_POSTS_PER_PAGE,
    ensures
        ({
            let count = guest_category_page_count(total_posts_length) as i64;
            let page = current_page as i32;
            if page == 0 || page > count as i32 {
                r matches Err(redirect) && redirect.status == RedirectStatus::SeeOther
                    && redirect.location@ == "/posts/category/"@ + category_id@ + "/page/1"@
            } else {
                r matches Ok((bar, fetched)) && fetched == page && bar@ == general_category_text(
                    page as usize as nat,
                    count as usize as nat,
                    category_id@,
                )
            }
        }),
{
    let page = current_page as i32;
    let mut total_pages_count = page_count(total_posts_length);
    if total_pages_count < 1 {
        total_pages_count = 1;
    }
    if page == 0 || page > total_pages_count as i32 {
        let url = category_url("/posts/category/", category_id, "/page/1");
        Err(see_other(url.as_str()))
    } else {
        let bar = general_category(page as usize, total_pages_count as usize, category_id);
        Ok((bar, page))
    }
}

/// The first page of a category always renders rather than redirecting to
/// itself, whatever the number of its posts; a category with no posts has
/// exactly one (empty) page.
pub proof fn lemma_first_category_page_renders(total_posts: i64)
    ensures
        guest_category_page_count(total_posts) >= 1,
        total_posts == 0 ==> guest_category_page_count(total_posts) == 1,
{
    if total_posts == 0 {
        assert(guest_page_count(0) == 0) by {
            assert(abs(2) == 2 && abs(3) == 3);
            assert(2int / 3int == 0);
        }
    }
}

} // verus!
