//! Category controllers.
use vstd::prelude::*;
use crate::controller::General_pagination::{category_admin_bar, category_admin_bar_text};
use crate::controller::common_controller::{posts_page_count, set_posts_per_page, PageBar};
use crate::domain::pagination::{
    page_number_seq, page_number_seq_i64, page_numbers, page_numbers_i64, spec_total_pages,
    total_pages,
};
use crate::adapters::http::auth_guard::require_login;
use crate::response::{Redirect, RedirectStatus};
use crate::text::{
    concat_pages,
    contains_text,
    decimal_text,
    ends_with,
    lemma_concat_pages_step,
    lemma_starts_differently,
    lemma_text_between,
    push_decimal,
    starts_with,
};

verus! {

/// The page numbers and bar of a category listing, and the page number and
/// size its posts are fetched with.
#[derive(Debug, Clone, PartialEq)]
pub struct CategoryPageBar {
    pub pages_count: Vec<i64>,
    pub pagination: String,
    pub page_number: i32,
    pub per_page: i64,
}

pub open spec fn category_page_links_link(current_page: nat, category: Seq<char>, i: nat) -> Seq<char> {
    if i == current_page {
        r#"<a class="active"  href="/posts/category/"#@ + category + r#"/page/"#@ + decimal_text(i) + r#"">"#@ + decimal_text(i) + r#"</a>"#@
    } else {
        r#"<a style="margin: 0 4px;" href="/posts/category/"#@ + category + r#"/page/"#@ + decimal_text(i) + r#"">"#@ + decimal_text(i) + r#"</a>"#@
    }
}

pub open spec fn category_page_links_links(current_page: nat, category: Seq<char>) -> spec_fn(nat) -> Seq<char> {
    |i: nat| category_page_links_link(current_page, category, i)
}

/// The whole text of [`category_page_links`].
pub open spec fn category_page_links_text(current_page: nat, count: nat, category: Seq<char>) -> Seq<char> {
    r#"
    <br>
<div class="paginations">
 "#@ + concat_pages(count, category_page_links_links(current_page, category))
}

/// Where the link of page `i` of the pagination bar of a guest category listing points.
pub open spec fn category_page_links_href(category: Seq<char>, i: nat) -> Seq<char> {
    r#"href="/posts/category/"#@ + category + r#"/page/"#@ + decimal_text(i) + r#"""#@
}

/// The pagination bar of a guest category listing ends with one item per page, pages one to the
/// page count in order; the item of page `i` opens with
/// `<a class="active"` exactly when `i` is the current page, and its link points at
/// `/posts/category/{category}/page/{i}`.
#[verifier::spinoff_prover]
pub proof fn lemma_category_page_links_bar(current_page: nat, count: nat, category: Seq<char>)
    ensures
        ends_with(category_page_links_text(current_page, count, category), concat_pages(count, category_page_links_links(current_page, category))),
        forall|i: nat|
            1 <= i <= count ==> (starts_with(#[trigger] category_page_links_link(current_page, category, i), r#"<a class="active""#@)
                <==> i == current_page),
        forall|i: nat|
            1 <= i <= count ==> contains_text(
                #[trigger] category_page_links_link(current_page, category, i),
                category_page_links_href(category, i),
            ),
{
    let text = category_page_links_text(current_page, count, category);
    let pages = concat_pages(count, category_page_links_links(current_page, category));
    lemma_text_between(text.subrange(0, text.len() - pages.len()), pages, Seq::empty());
    assert(text =~= text.subrange(0, text.len() - pages.len()) + pages + Seq::<char>::empty());
    assert forall|i: nat| 1 <= i <= count implies (starts_with(
        #[trigger] category_page_links_link(current_page, category, i),
        r#"<a class="active""#@,
    ) <==> i == current_page) && contains_text(
        category_page_links_link(current_page, category, i),
        category_page_links_href(category, i),
    ) by {
        reveal_strlit(r#"""#);
        reveal_strlit(r#"">"#);
        reveal_strlit(r#"/page/"#);
        reveal_strlit(r#"</a>"#);
        reveal_strlit(r#"<a class="active""#);
        reveal_strlit(r#"<a class="active"  "#);
        reveal_strlit(r#"<a class="active"  href="/posts/category/"#);
        reveal_strlit(r#"<a style="margin: 0 4px;" "#);
        reveal_strlit(r#"<a style="margin: 0 4px;" href="/posts/category/"#);
        reveal_strlit(r#">"#);
        reveal_strlit(r#"href="/posts/category/"#);
        let link = category_page_links_link(current_page, category, i);
        let href = category_page_links_href(category, i);
        if i == current_page {
            let pre = r#"<a class="active"  "#@;
            let post = r#">"#@ + decimal_text(i) + r#"</a>"#@;
            assert(link =~= pre + href + post);
            lemma_text_between(pre, href, post);
            let marker = r#"<a class="active""#@;
            let rest = link.subrange(marker.len() as int, link.len() as int);
            assert(link =~= Seq::<char>::empty() + marker + rest);
            lemma_text_between(Seq::<char>::empty(), marker, rest);
        } else {
            let pre = r#"<a style="margin: 0 4px;" "#@;
            let post = r#">"#@ + decimal_text(i) + r#"</a>"#@;
            assert(link =~= pre + href + post);
            lemma_text_between(pre, href, post);
            lemma_starts_differently(pre, href + post, r#"<a class="active""#@, 3);
        }
    }
}

fn category_page_links_link_string(current_page: usize, category_input: &str, i: usize) -> (r: String)
    ensures
        r@ == category_page_links_link(current_page as nat, category_input@, i as nat),
{
    if i == current_page {
        let mut s = String::from_str(r#"<a class="active"  href="/posts/category/"#);
        s.append(category_input);
        s.append(r#"/page/"#);
        push_decimal(&mut s, i);
        s.append(r#"">"#);
        push_decimal(&mut s, i);
        s.append(r#"</a>"#);
        s
    } else {
        let mut s = String::from_str(r#"<a style="margin: 0 4px;" href="/posts/category/"#);
        s.append(category_input);
        s.append(r#"/page/"#);
        push_decimal(&mut s, i);
        s.append(r#"">"#);
        push_decimal(&mut s, i);
        s.append(r#"</a>"#);
        s
    }
}

/// The bar of a guest category listing: one link per page under the
/// category, the current one marked active.
fn category_page_links(current_page: usize, count_of_number_of_pages: usize, category_input: &str) -> (r: String)
    ensures
        r@ == category_page_links_text(current_page as nat, count_of_number_of_pages as nat, category_input@),
{
    let mut s = String::from_str(r#"
    <br>
<div class="paginations">
 "#);
    let ghost head = s@;
    let mut i: usize = 0;
    while i < count_of_number_of_pages
        invariant
            i <= count_of_number_of_pages,
            s@ == head + concat_pages(i as nat, category_page_links_links(current_page as nat, category_input@)),
        decreases count_of_number_of_pages - i,
    {
        i = i + 1;
        let link = category_page_links_link_string(current_page, category_input, i);
        s.append(link.as_str());
        proof {
            lemma_concat_pages_step(head, i as nat, category_page_links_links(current_page as nat, category_input@));
        }
    }
    s
}

/// The admin category table, given the visitor's identity, the requested
/// page and the number of categories. An anonymous visitor is sent home;
/// otherwise the page numbers and bar to render, and the page size its
/// categories are fetched with.
pub fn get_all_categories_controller<I>(user: &Option<I>, param: i32, total_posts_length: i64) -> (r:
    Result<(PageBar, i32), Redirect>)
    requires
        total_posts_length >= 0,
        spec_total_pages(total_posts_length as int, 3) < usize::MAX,
    ensures
        user is None ==> (r matches Err(redirect) && redirect.status == RedirectStatus::SeeOther
            && redirect.location@ == "/"@),
        user is Some ==> (r matches Ok((bar, per_page)) && bar.pages_count@ == page_number_seq(
            posts_page_count(total_posts_length) as nat,
        ) && bar.pagination@ == category_admin_bar_text(
            param as usize as nat,
            posts_page_count(total_posts_length) as nat,
        ) && per_page == 3),
{
    if let Some(redirect) = require_login(user) {
        return Err(redirect);
    }
    let posts_per_page = total_pages(total_posts_length, set_posts_per_page() as i64);
    let count = posts_per_page as usize;
    let pages_count = page_numbers(count);
    let pagination = category_admin_bar(param as usize, count);
    Ok((PageBar { pages_count, pagination }, set_posts_per_page()))
}

/// The guest category listing, given the category
/// as it appears in the path, the requested page and the number of posts in
/// the category: the page numbers, the bar, and the page number and size its
/// posts are fetched with. Pages out of range are not redirected.
pub fn get_category_with_pagination(category_input: &str, par: u32, total_posts_length: i64) -> (r:
    CategoryPageBar)
    requires
        total_posts_length >= 0,
    ensures
        r.pages_count@ == page_number_seq_i64(spec_total_pages(total_posts_length as int, 3)),
        r.pagination@ == category_page_links_text(
            par as i32 as usize as nat,
            r.pages_count@.len(),
            category_input@,
        ),
        r.page_number == par as i32,
        r.per_page == 3,
{
    let posts_per_page = total_pages(total_posts_length, set_posts_per_page() as i64);
    let pages_count = page_numbers_i64(posts_per_page);
    let page_number = par as i32;
    let pagination = category_page_links(page_number as usize, pages_count.len(), category_input);
    CategoryPageBar {
        pages_count,
        pagination,
        page_number,
        per_page: set_posts_per_page() as i64,
    }
}

} // verus!
