//! The admin listing of one category's posts.
use vstd::prelude::*;
use crate::adapters::http::auth_guard::require_login;
use crate::controller::category_controller::CategoryPageBar;
use crate::controller::common_controller::set_posts_per_page;
use crate::domain::pagination::{page_number_seq_i64, page_numbers_i64, spec_total_pages, total_pages};
use crate::response::{Redirect, RedirectStatus};
use crate::text::{
    concat_pages,
    contains_text,
    decimal_text,
    ends_with,
    lemma_concat_pages_step,
    lemma_starts_differently,
    lemma_text_between,
    push_decimal,
    starts_with,
};

verus! {

pub open spec fn admin_display_bar_link(current_page: nat, category: Seq<char>, i: nat) -> Seq<char> {
    if i == current_page {
        r#"
            <li class="page-item active">
              <a class="page-link "  href="/admin/categories/"#@ + category + r#"/page/"#@ + decimal_text(i) + r#"">"#@ + decimal_text(i) + r#"</a>"#@
    } else {
        r#"<li class="page-item">
              <a class="page-link "   href="/admin/categories/"#@ + category + r#"/page/"#@ + decimal_text(i) + r#"">"#@ + decimal_text(i) + r#"</a> "#@
    }
}

pub open spec fn admin_display_bar_links(current_page: nat, category: Seq<char>) -> spec_fn(nat) -> Seq<char> {
    |i: nat| admin_display_bar_link(current_page, category, i)
}

/// The whole text of [`admin_display_bar`].
pub open spec fn admin_display_bar_text(current_page: nat, count: nat, category: Seq<char>) -> Seq<char> {
    r#"
     <div class="card mb-4">
                                <!-- Basic Pagination -->
                                   <!-- Basic Pagination -->
                                                <nav aria-label="Page navigation">
                                                    <ul class="pagination">
 "#@ + concat_pages(count, admin_display_bar_links(current_page, category))
}

/// Where the link of page `i` of the pagination bar of an admin category listing points.
pub open spec fn admin_display_bar_href(category: Seq<char>, i: nat) -> Seq<char> {
    r#"href="/admin/categories/"#@ + category + r#"/page/"#@ + decimal_text(i) + r#"""#@
}

/// The pagination bar of an admin category listing ends with one item per page, pages one to the
/// page count in order; the item of page `i` opens with
/// `<li class="page-item active">` exactly when `i` is the current page, and its link points at
/// `/admin/categories/{category}/page/{i}`.
#[verifier::spinoff_prover]
pub proof fn lemma_admin_display_bar_bar(current_page: nat, count: nat, category: Seq<char>)
    ensures
        ends_with(admin_display_bar_text(current_page, count, category), concat_pages(count, admin_display_bar_links(current_page, category))),
        forall|i: nat|
            1 <= i <= count ==> (starts_with(#[trigger] admin_display_bar_link(current_page, category, i), r#"
            <li class="page-item active">"#@)
                <==> i == current_page),
        forall|i: nat|
            1 <= i <= count ==> contains_text(
                #[trigger] admin_display_bar_link(current_page, category, i),
                admin_display_bar_href(category, i),
            ),
{
    let text = admin_display_bar_text(current_page, count, category);
    let pages = concat_pages(count, admin_display_bar_links(current_page, category));
    lemma_text_between(text.subrange(0, text.len() - pages.len()), pages, Seq::empty());
    assert(text =~= text.subrange(0, text.len() - pages.len()) + pages + Seq::<char>::empty());
    assert forall|i: nat| 1 <= i <= count implies (starts_with(
        #[trigger] admin_display_bar_link(current_page, category, i),
        r#"
            <li class="page-item active">"#@,
    ) <==> i == current_page) && contains_text(
        admin_display_bar_link(current_page, category, i),
        admin_display_bar_href(category, i),
    ) by {
        reveal_strlit(r#"
            <li class="page-item active">"#);
        reveal_strlit(r#"
            <li class="page-item active">
              <a class="page-link "  "#);
        reveal_strlit(r#"
            <li class="page-item active">
              <a class="page-link "  href="/admin/categories/"#);
        reveal_strlit(r#"""#);
        reveal_strlit(r#"">"#);
        reveal_strlit(r#"/page/"#);
        reveal_strlit(r#"</a>"#);
        reveal_strlit(r#"</a> "#);
        reveal_strlit(r#"<li class="page-item">
              <a class="page-link "   "#);
        reveal_strlit(r#"<li class="page-item">
              <a class="page-link "   href="/admin/categories/"#);
        reveal_strlit(r#">"#);
        reveal_strlit(r#"href="/admin/categories/"#);
        let link = admin_display_bar_link(current_page, category, i);
        let href = admin_display_bar_href(category, i);
        if i == current_page {
            let pre = r#"
            <li class="page-item active">
              <a class="page-link "  "#@;
            let post = r#">"#@ + decimal_text(i) + r#"</a>"#@;
            assert(link =~= pre + href + post);
            lemma_text_between(pre, href, post);
            let marker = r#"
            <li class="page-item active">"#@;
            let rest = link.subrange(marker.len() as int, link.len() as int);
            assert(link =~= Seq::<char>::empty() + marker + rest);
            lemma_text_between(Seq::<char>::empty(), marker, rest);
        } else {
            let pre = r#"<li class="page-item">
              <a class="page-link "   "#@;
            let post = r#">"#@ + decimal_text(i) + r#"</a> "#@;
            assert(link =~= pre + href + post);
            lemma_text_between(pre, href, post);
            lemma_starts_differently(pre, href + post, r#"
            <li class="page-item active">"#@, 0);
        }
    }
}

fn admin_display_bar_link_string(current_page: usize, category_input: &str, i: usize) -> (r: String)
    ensures
        r@ == admin_display_bar_link(current_page as nat, category_input@, i as nat),
{
    if i == current_page {
        let mut s = String::from_str(r#"
            <li class="page-item active">
              <a class="page-link "  href="/admin/categories/"#);
        s.append(category_input);
        s.append(r#"/page/"#);
        push_decimal(&mut s, i);
        s.append(r#"">"#);
        push_decimal(&mut s, i);
        s.append(r#"</a>"#);
        s
    } else {
        let mut s = String::from_str(r#"<li class="page-item">
              <a class="page-link "   href="/admin/categories/"#);
        s.append(category_input);
        s.append(r#"/page/"#);
        push_decimal(&mut s, i);
        s.append(r#"">"#);
        push_decimal(&mut s, i);
        s.append(r#"</a> "#);
        s
    }
}

/// The bar of the admin listing of one category's posts: one list item per
/// page under `/admin/categories/{category_input}`, the current one marked
/// active.
fn admin_display_bar(current_page: usize, count_of_number_of_pages: usize, category_input: &str) -> (r: String)
    ensures
        r@ == admin_display_bar_text(current_page as nat, count_of_number_of_pages as nat, category_input@),
{
    let mut s = String::from_str(r#"
     <div class="card mb-4">
                                <!-- Basic Pagination -->
                                   <!-- Basic Pagination -->
                                                <nav aria-label="Page navigation">
                                                    <ul class="pagination">
 "#);
    let ghost head = s@;
    let mut i: usize = 0;
    while i < count_of_number_of_pages
        invariant
            i <= count_of_number_of_pages,
            s@ == head + concat_pages(i as nat, admin_display_bar_links(current_page as nat, category_input@)),
        decreases count_of_number_of_pages - i,
    {
        i = i + 1;
        let link = admin_display_bar_link_string(current_page, category_input, i);
        s.append(link.as_str());
        proof {
            lemma_concat_pages_step(head, i as nat, admin_display_bar_links(current_page as nat, category_input@));
        }
    }
    s
}

/// The admin listing of one category's posts, given the visitor's identity,
/// the category as it appears in the path, the requested page and the
/// number of posts in the category. An anonymous visitor is sent home;
/// otherwise the page numbers, the bar, and the page number and page size
/// (three) its posts are fetched with.
pub fn admin_category_display<I>(
    user: &Option<I>,
    category_input: &str,
    params: i32,
    total_posts_length: i64,
) -> (r: Result<CategoryPageBar, Redirect>)
    requires
        total_posts_length >= 0,
    ensures
        user is None ==> (r matches Err(redirect) && redirect.status == RedirectStatus::SeeOther
            && redirect.location@ == "/"@),
        user is Some ==> (r matches Ok(bar) && bar.pages_count@ == page_number_seq_i64(
            spec_total_pages(total_posts_length as int, 3),
        ) && bar.pagination@ == admin_display_bar_text(
            params as usize as nat,
            bar.pages_count@.len(),
            category_input@,
        ) && bar.page_number == params && bar.per_page == 3),
{
    if let Some(redirect) = require_login(user) {
        return Err(redirect);
    }
    let posts_per_page = total_pages(total_posts_length, set_posts_per_page() as i64);
    let pages_count = page_numbers_i64(posts_per_page);
    let pagination = admin_display_bar(params as usize, pages_count.len(), category_input);
    Ok(
        CategoryPageBar {
            pages_count,
            pagination,
            page_number: params,
            per_page: set_posts_per_page() as i64,
        },
    )
}

} // verus!
