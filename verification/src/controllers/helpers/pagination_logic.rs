//! Page-count arithmetic and the HTML pagination bars of the listing pages.
use vstd::prelude::*;
use crate::domain::pagination::{resolve_page, page_size_ok, spec_resolve_page, spec_total_pages};
use crate::response::{see_other, Redirect, RedirectStatus};
use crate::text::{
    concat_pages,
    contains_text,
    decimal_text,
    ends_with,
    lemma_concat_pages_step,
    lemma_starts_differently,
    lemma_text_between,
    push_decimal,
    starts_with,
};

verus! {

/// Total number of pages needed to show `total_items` at `per_page` items per page.
pub fn total_pages(total_items: i64, per_page: i64) -> (r: i64)
    requires
        page_size_ok(total_items, per_page),
    ensures
        r == spec_total_pages(total_items as int, per_page as int),
{
    crate::domain::pagination::total_pages(total_items, per_page)
}

/// Validates a 1-indexed `page_param` against the item/page-size counts.
///
/// Returns the resolved `(current_page, total_pages)` on success, or a
/// `303 See Other` redirect to `redirect_url` if the page is out of range.
/// When `clamp_min_one_page` is set, a listing with zero items still counts
/// as having one (empty) page rather than redirecting forever.
pub fn resolve_current_page(
    page_param: i64,
    total_items: i64,
    per_page: i64,
    clamp_min_one_page: bool,
    redirect_url: &str,
) -> (r: Result<(usize, usize), Redirect>)
    requires
        page_size_ok(total_items, per_page),
    ensures
        match spec_resolve_page(page_param, total_items, per_page, clamp_min_one_page) {
            Some(page) => r == Ok::<(usize, usize), Redirect>((page.current, page.total)),
            None => r matches Err(redirect) && redirect.status == RedirectStatus::SeeOther
                && redirect.location@ == redirect_url@,
        },
{
    match resolve_page(page_param, total_items, per_page, clamp_min_one_page) {
        Some(page) => Ok((page.current, page.total)),
        None => Err(see_other(redirect_url)),
    }
}

pub open spec fn index_pagination_link(current_page: nat, i: nat) -> Seq<char> {
    if i == current_page {
        r#"<a class="active"  href="/posts/page/"#@ + decimal_text(i) + r#"">"#@ + decimal_text(i) + r#"</a>"#@
    } else {
        r#"<a style="margin: 0 4px;" href="/posts/page/"#@ + decimal_text(i) + r#"">"#@ + decimal_text(i) + r#"</a>"#@
    }
}

pub open spec fn index_pagination_links(current_page: nat) -> spec_fn(nat) -> Seq<char> {
    |i: nat| index_pagination_link(current_page, i)
}

/// The whole text of [`index_pagination`].
pub open spec fn index_pagination_text(current_page: nat, count: nat) -> Seq<char> {
    r#"
      <br>
      <div class="paginations">"#@ + (if count == 0 {
        r#"<a class="active"  href="/posts/page/1">1</a>"#@
    } else {
        Seq::empty()
    }) + concat_pages(count, index_pagination_links(current_page))
}

/// Where the link of page `i` of the guest pagination bar points.
pub open spec fn index_pagination_href(i: nat) -> Seq<char> {
    r#"href="/posts/page/"#@ + decimal_text(i) + r#"""#@
}

/// The guest pagination bar ends with one item per page, pages one to the
/// page count in order; the item of page `i` opens with
/// `<a class="active"` exactly when `i` is the current page, and its link points at
/// `/posts/page/{i}`.
#[verifier::spinoff_prover]
pub proof fn lemma_index_pagination_bar(current_page: nat, count: nat)
    ensures
        ends_with(index_pagination_text(current_page, count), concat_pages(count, index_pagination_links(current_page))),
        forall|i: nat|
            1 <= i <= count ==> (starts_with(#[trigger] index_pagination_link(current_page, i), r#"<a class="active""#@)
                <==> i == current_page),
        forall|i: nat|
            1 <= i <= count ==> contains_text(
                #[trigger] index_pagination_link(current_page, i),
                index_pagination_href(i),
            ),
{
    let text = index_pagination_text(current_page, count);
    let pages = concat_pages(count, index_pagination_links(current_page));
    lemma_text_between(text.subrange(0, text.len() - pages.len()), pages, Seq::empty());
    assert(text =~= text.subrange(0, text.len() - pages.len()) + pages + Seq::<char>::empty());
    assert forall|i: nat| 1 <= i <= count implies (starts_with(
        #[trigger] index_pagination_link(current_page, i),
        r#"<a class="active""#@,
    ) <==> i == current_page) && contains_text(
        index_pagination_link(current_page, i),
        index_pagination_href(i),
    ) by {
        reveal_strlit(r#"""#);
        reveal_strlit(r#"">"#);
        reveal_strlit(r#"</a>"#);
        reveal_strlit(r#"<a class="active""#);
        reveal_strlit(r#"<a class="active"  "#);
        reveal_strlit(r#"<a class="active"  href="/posts/page/"#);
        reveal_strlit(r#"<a style="margin: 0 4px;" "#);
        reveal_strlit(r#"<a style="margin: 0 4px;" href="/posts/page/"#);
        reveal_strlit(r#">"#);
        reveal_strlit(r#"href="/posts/page/"#);
        let link = index_pagination_link(current_page, i);
        let href = index_pagination_href(i);
        if i == current_page {
            let pre = r#"<a class="active"  "#@;
            let post = r#">"#@ + decimal_text(i) + r#"</a>"#@;
            assert(link =~= pre + href + post);
            lemma_text_between(pre, href, post);
            let marker = r#"<a class="active""#@;
            let rest = link.subrange(marker.len() as int, link.len() as int);
            assert(link =~= Seq::<char>::empty() + marker + rest);
            lemma_text_between(Seq::<char>::empty(), marker, rest);
        } else {
            let pre = r#"<a style="margin: 0 4px;" "#@;
            let post = r#">"#@ + decimal_text(i) + r#"</a>"#@;
            assert(link =~= pre + href + post);
            lemma_text_between(pre, href, post);
            lemma_starts_differently(pre, href + post, r#"<a class="active""#@, 3);
        }
    }
}

/// The guest pagination bar with no pages still shows one link, to page one, marked active.
pub proof fn lemma_index_pagination_without_pages(current_page: nat)
    ensures
        ends_with(index_pagination_text(current_page, 0), r#"<a class="active"  href="/posts/page/1">1</a>"#@),
{
    let text = index_pagination_text(current_page, 0);
    let lone = r#"<a class="active"  href="/posts/page/1">1</a>"#@;
    lemma_text_between(text.subrange(0, text.len() - lone.len()), lone, Seq::empty());
    assert(text =~= text.subrange(0, text.len() - lone.len()) + lone + Seq::<char>::empty());
}

fn index_pagination_link_string(current_page: usize, i: usize) -> (r: String)
    ensures
        r@ == index_pagination_link(current_page as nat, i as nat),
{
    if i == current_page {
        let mut s = String::from_str(r#"<a class="active"  href="/posts/page/"#);
        push_decimal(&mut s, i);
        s.append(r#"">"#);
        push_decimal(&mut s, i);
        s.append(r#"</a>"#);
        s
    } else {
        let mut s = String::from_str(r#"<a style="margin: 0 4px;" href="/posts/page/"#);
        push_decimal(&mut s, i);
        s.append(r#"">"#);
        push_decimal(&mut s, i);
        s.append(r#"</a>"#);
        s
    }
}

/// The guest pagination bar: a lone active link to page one when there are
/// no pages, then one link per page, the current one marked active.
pub fn index_pagination(current_page: usize, count_of_number_of_pages: usize) -> (r: String)
    ensures
        r@ == index_pagination_text(current_page as nat, count_of_number_of_pages as nat),
{
    let mut s = String::from_str(r#"
      <br>
      <div class="paginations">"#);
    if count_of_number_of_pages == 0 {
        s.append(r#"<a class="active"  href="/posts/page/1">1</a>"#);
    }
    let ghost head = s@;
    let mut i: usize = 0;
    while i < count_of_number_of_pages
        invariant
            i <= count_of_number_of_pages,
            s@ == head + concat_pages(i as nat, index_pagination_links(current_page as nat)),
        decreases count_of_number_of_pages - i,
    {
        i = i + 1;
        let link = index_pagination_link_string(current_page, i);
        s.append(link.as_str());
        proof {
            lemma_concat_pages_step(head, i as nat, index_pagination_links(current_page as nat));
        }
    }
    s
}

pub open spec fn general_category_link(current_page: nat, category: Seq<char>, i: nat) -> Seq<char> {
    if i == current_page {
        r#"<a class="active"  href="/posts/category/"#@ + category + r#"/page/"#@ + decimal_text(i) + r#"">"#@ + decimal_text(i) + r#"</a>"#@
    } else {
        r#"<a style="margin: 0 4px;" href="/posts/category/"#@ + category + r#"/page/"#@ + decimal_text(i) + r#"">"#@ + decimal_text(i) + r#"</a>"#@
    }
}

pub open spec fn general_category_links(current_page: nat, category: Seq<char>) -> spec_fn(nat) -> Seq<char> {
    |i: nat| general_category_link(current_page, category, i)
}

/// The whole text of [`general_category`].
pub open spec fn general_category_text(current_page: nat, count: nat, category: Seq<char>) -> Seq<char> {
    r#"
        <br>
        <div class="paginations">
        "#@ + (if count == 0 {
        r#"<a class="active"  href="/posts/page/1">1</a>"#@
    } else {
        Seq::empty()
    }) + concat_pages(count, general_category_links(current_page, category))
}

fn general_category_link_string(current_page: usize, category_input: &str, i: usize) -> (r: String)
    ensures
        r@ == general_category_link(current_page as nat, category_input@, i as nat),
{
    if i == current_page {
        let mut s = String::from_str(r#"<a class="active"  href="/posts/category/"#);
        s.append(category_input);
        s.append(r#"/page/"#);
        push_decimal(&mut s, i);
        s.append(r#"">"#);
        push_decimal(&mut s, i);
        s.append(r#"</a>"#);
        s
    } else {
        let mut s = String::from_str(r#"<a style="margin: 0 4px;" href="/posts/category/"#);
        s.append(category_input);
        s.append(r#"/page/"#);
        push_decimal(&mut s, i);
        s.append(r#"">"#);
        push_decimal(&mut s, i);
        s.append(r#"</a>"#);
        s
    }
}

/// The pagination bar of a guest category listing: as [`index_pagination`],
/// with each link under `/posts/category/{category_input}`.
pub fn general_category(current_page: usize, count_of_number_of_pages: usize, category_input: &str) -> (r: String)
    ensures
        r@ == general_category_text(current_page as nat, count_of_number_of_pages as nat, category_input@),
{
    let mut s = String::from_str(r#"
        <br>
        <div class="paginations">
        "#);
    if count_of_number_of_pages == 0 {
        s.append(r#"<a class="active"  href="/posts/page/1">1</a>"#);
    }
    let ghost head = s@;
    let mut i: usize = 0;
    while i < count_of_number_of_pages
        invariant
            i <= count_of_number_of_pages,
            s@ == head + concat_pages(i as nat, general_category_links(current_page as nat, category_input@)),
        decreases count_of_number_of_pages - i,
    {
        i = i + 1;
        let link = general_category_link_string(current_page, category_input, i);
        s.append(link.as_str());
        proof {
            lemma_concat_pages_step(head, i as nat, general_category_links(current_page as nat, category_input@));
        }
    }
    s
}

/// Where the link of page `i` of a guest category bar points.
pub open spec fn general_category_href(category: Seq<char>, i: nat) -> Seq<char> {
    r#"href="/posts/category/"#@ + category + r#"/page/"#@ + decimal_text(i) + r#"""#@
}

/// The guest category bar ends with one link per page, pages one to the page
/// count in order; the link of page `i` opens with `<a class="active"`
/// exactly when `i` is the current page, and points at
/// `/posts/category/{category}/page/{i}`.
#[verifier::spinoff_prover]
pub proof fn lemma_general_category_bar(current_page: nat, count: nat, category: Seq<char>)
    ensures
        ends_with(
            general_category_text(current_page, count, category),
            concat_pages(count, general_category_links(current_page, category)),
        ),
        forall|i: nat|
            1 <= i <= count ==> (starts_with(
                #[trigger] general_category_link(current_page, category, i),
                r#"<a class="active""#@,
            ) <==> i == current_page),
        forall|i: nat|
            1 <= i <= count ==> contains_text(
                #[trigger] general_category_link(current_page, category, i),
                general_category_href(category, i),
            ),
{
    let text = general_category_text(current_page, count, category);
    let pages = concat_pages(count, general_category_links(current_page, category));
    lemma_text_between(text.subrange(0, text.len() - pages.len()), pages, Seq::empty());
    assert(text =~= text.subrange(0, text.len() - pages.len()) + pages + Seq::<char>::empty());
    assert forall|i: nat| 1 <= i <= count implies (starts_with(
        #[trigger] general_category_link(current_page, category, i),
        r#"<a class="active""#@,
    ) <==> i == current_page) && contains_text(
        general_category_link(current_page, category, i),
        general_category_href(category, i),
    ) by {
        reveal_strlit(r#"<a class="active""#);
        reveal_strlit(r#"<a class="active"  href="/posts/category/"#);
        reveal_strlit(r#"<a style="margin: 0 4px;" href="/posts/category/"#);
        reveal_strlit(r#"<a class="active"  "#);
        reveal_strlit(r#"<a style="margin: 0 4px;" "#);
        reveal_strlit(r#"href="/posts/category/"#);
        reveal_strlit(r#"/page/"#);
        reveal_strlit(r#"">"#);
        reveal_strlit(r#"""#);
        reveal_strlit(r#">"#);
        reveal_strlit(r#"</a>"#);
        let link = general_category_link(current_page, category, i);
        let href = general_category_href(category, i);
        let post = r#">"#@ + decimal_text(i) + r#"</a>"#@;
        if i == current_page {
            let pre = r#"<a class="active"  "#@;
            assert(link =~= pre + href + post);
            lemma_text_between(pre, href, post);
            let marker = r#"<a class="active""#@;
            assert(link =~= Seq::<char>::empty() + marker + link.subrange(marker.len() as int, link.len() as int));
            lemma_text_between(Seq::<char>::empty(), marker, link.subrange(marker.len() as int, link.len() as int));
        } else {
            let pre = r#"<a style="margin: 0 4px;" "#@;
            assert(link =~= pre + href + post);
            lemma_text_between(pre, href, post);
            lemma_starts_differently(pre, href + post, r#"<a class="active""#@, 3);
        }
    }
}

/// The pagination bar of a guest category listing with no pages still shows one link, to page one, marked active.
pub proof fn lemma_general_category_without_pages(current_page: nat, category: Seq<char>)
    ensures
        ends_with(general_category_text(current_page, 0, category), r#"<a class="active"  href="/posts/page/1">1</a>"#@),
{
    let text = general_category_text(current_page, 0, category);
    let lone = r#"<a class="active"  href="/posts/page/1">1</a>"#@;
    lemma_text_between(text.subrange(0, text.len() - lone.len()), lone, Seq::empty());
    assert(text =~= text.subrange(0, text.len() - lone.len()) + lone + Seq::<char>::empty());
}

pub open spec fn admin_categories_link(current_page: nat, i: nat) -> Seq<char> {
    if i == current_page {
        r#"
              <li class="page-item active">
              <a class="page-link "   href="/admin/categories/page/"#@ + decimal_text(i) + r#"">"#@ + decimal_text(i) + r#"</a>"#@
    } else {
        r#"
              <li class="page-item">
              <a class="page-link "   href="/admin/categories/page/"#@ + decimal_text(i) + r#"">"#@ + decimal_text(i) + r#"</a>"#@
    }
}

pub open spec fn admin_categories_links(current_page: nat) -> spec_fn(nat) -> Seq<char> {
    |i: nat| admin_categories_link(current_page, i)
}

/// The whole text of [`admin_categories`].
pub open spec fn admin_categories_text(current_page: nat, count: nat) -> Seq<char> {
    r#"<div class="card mb-4">
                       <!-- Basic Pagination -->
                       <!-- Basic Pagination -->
                      <nav aria-label="Page navigation">
                       <ul class="pagination">
                        "#@ + concat_pages(count, admin_categories_links(current_page))
}

/// Where the link of page `i` of the admin category table's pagination bar points.
pub open spec fn admin_categories_href(i: nat) -> Seq<char> {
    r#"href="/admin/categories/page/"#@ + decimal_text(i) + r#"""#@
}

/// The admin category table's pagination bar ends with one item per page, pages one to the
/// page count in order; the item of page `i` opens with
/// `<li class="page-item active">` exactly when `i` is the current page, and its link points at
/// `/admin/categories/page/{i}`.
#[verifier::spinoff_prover]
pub proof fn lemma_admin_categories_bar(current_page: nat, count: nat)
    ensures
        ends_with(admin_categories_text(current_page, count), concat_pages(count, admin_categories_links(current_page))),
        forall|i: nat|
            1 <= i <= count ==> (starts_with(#[trigger] admin_categories_link(current_page, i), r#"
              <li class="page-item active">"#@)
                <==> i == current_page),
        forall|i: nat|
            1 <= i <= count ==> contains_text(
                #[trigger] admin_categories_link(current_page, i),
                admin_categories_href(i),
            ),
{
    let text = admin_categories_text(current_page, count);
    let pages = concat_pages(count, admin_categories_links(current_page));
    lemma_text_between(text.subrange(0, text.len() - pages.len()), pages, Seq::empty());
    assert(text =~= text.subrange(0, text.len() - pages.len()) + pages + Seq::<char>::empty());
    assert forall|i: nat| 1 <= i <= count implies (starts_with(
        #[trigger] admin_categories_link(current_page, i),
        r#"
              <li class="page-item active">"#@,
    ) <==> i == current_page) && contains_text(
        admin_categories_link(current_page, i),
        admin_categories_href(i),
    ) by {
        reveal_strlit(r#"
              <li class="page-item active">"#);
        reveal_strlit(r#"
              <li class="page-item active">
              <a class="page-link "   "#);
        reveal_strlit(r#"
              <li class="page-item active">
              <a class="page-link "   href="/admin/categories/page/"#);
        reveal_strlit(r#"
              <li class="page-item">
              <a class="page-link "   "#);
        reveal_strlit(r#"
              <li class="page-item">
              <a class="page-link "   href="/admin/categories/page/"#);
        reveal_strlit(r#"""#);
        reveal_strlit(r#"">"#);
        reveal_strlit(r#"</a>"#);
        reveal_strlit(r#">"#);
        reveal_strlit(r#"href="/admin/categories/page/"#);
        let link = admin_categories_link(current_page, i);
        let href = admin_categories_href(i);
        if i == current_page {
            let pre = r#"
              <li class="page-item active">
              <a class="page-link "   "#@;
            let post = r#">"#@ + decimal_text(i) + r#"</a>"#@;
            assert(link =~= pre + href + post);
            lemma_text_between(pre, href, post);
            let marker = r#"
              <li class="page-item active">"#@;
            let rest = link.subrange(marker.len() as int, link.len() as int);
            assert(link =~= Seq::<char>::empty() + marker + rest);
            lemma_text_between(Seq::<char>::empty(), marker, rest);
        } else {
            let pre = r#"
              <li class="page-item">
              <a class="page-link "   "#@;
            let post = r#">"#@ + decimal_text(i) + r#"</a>"#@;
            assert(link =~= pre + href + post);
            lemma_text_between(pre, href, post);
            lemma_starts_differently(pre, href + post, r#"
              <li class="page-item active">"#@, 35);
        }
    }
}

fn admin_categories_link_string(current_page: usize, i: usize) -> (r: String)
    ensures
        r@ == admin_categories_link(current_page as nat, i as nat),
{
    if i == current_page {
        let mut s = String::from_str(r#"
              <li class="page-item active">
              <a class="page-link "   href="/admin/categories/page/"#);
        push_decimal(&mut s, i);
        s.append(r#"">"#);
        push_decimal(&mut s, i);
        s.append(r#"</a>"#);
        s
    } else {
        let mut s = String::from_str(r#"
              <li class="page-item">
              <a class="page-link "   href="/admin/categories/page/"#);
        push_decimal(&mut s, i);
        s.append(r#"">"#);
        push_decimal(&mut s, i);
        s.append(r#"</a>"#);
        s
    }
}

/// The pagination bar of the admin category table: one list item per page,
/// the current one marked active.
pub fn admin_categories(current_page: usize, count_of_number_of_pages: usize) -> (r: String)
    ensures
        r@ == admin_categories_text(current_page as nat, count_of_number_of_pages as nat),
{
    let mut s = String::from_str(r#"<div class="card mb-4">
                       <!-- Basic Pagination -->
                       <!-- Basic Pagination -->
                      <nav aria-label="Page navigation">
                       <ul class="pagination">
                        "#);
    let ghost head = s@;
    let mut i: usize = 0;
    while i < count_of_number_of_pages
        invariant
            i <= count_of_number_of_pages,
            s@ == head + concat_pages(i as nat, admin_categories_links(current_page as nat)),
        decreases count_of_number_of_pages - i,
    {
        i = i + 1;
        let link = admin_categories_link_string(current_page, i);
        s.append(link.as_str());
        proof {
            lemma_concat_pages_step(head, i as nat, admin_categories_links(current_page as nat));
        }
    }
    s
}

pub open spec fn admin_main_page_link(current_page: nat, i: nat) -> Seq<char> {
    if i == current_page {
        r#"
             <li class="page-item active">
              <a class="page-link "   href="/admin/posts/page/"#@ + decimal_text(i) + r#"">"#@ + decimal_text(i) + r#"</a></li>"#@
    } else {
        r#"
             <li class="page-item">
              <a class="page-link "   href="/admin/posts/page/"#@ + decimal_text(i) + r#"">"#@ + decimal_text(i) + r#"</a></li>"#@
    }
}

pub open spec fn admin_main_page_links(current_page: nat) -> spec_fn(nat) -> Seq<char> {
    |i: nat| admin_main_page_link(current_page, i)
}

/// The whole text of [`admin_main_page`].
pub open spec fn admin_main_page_text(current_page: nat, count: nat) -> Seq<char> {
    r#"<div class="card mb-4">
                        <!-- Basic Pagination -->
                        <!-- Basic Pagination -->
                        <nav aria-label="Page navigation">
                        <ul class="pagination">
                        "#@ + concat_pages(count, admin_main_page_links(current_page)) + r#"</ul>
        </nav>"#@
}

/// Where the link of page `i` of the admin post table's pagination bar points.
pub open spec fn admin_main_page_href(i: nat) -> Seq<char> {
    r#"href="/admin/posts/page/"#@ + decimal_text(i) + r#"""#@
}

/// The admin post table's pagination bar ends with one item per page, pages one to the
/// page count in order and then the closing of the list; the item of page `i` opens with
/// `<li class="page-item active">` exactly when `i` is the current page, and its link points at
/// `/admin/posts/page/{i}`.
#[verifier::spinoff_prover]
pub proof fn lemma_admin_main_page_bar(current_page: nat, count: nat)
    ensures
        ends_with(admin_main_page_text(current_page, count), concat_pages(count, admin_main_page_links(current_page)) + r#"</ul>
        </nav>"#@),
        forall|i: nat|
            1 <= i <= count ==> (starts_with(#[trigger] admin_main_page_link(current_page, i), r#"
             <li class="page-item active">"#@)
                <==> i == current_page),
        forall|i: nat|
            1 <= i <= count ==> contains_text(
                #[trigger] admin_main_page_link(current_page, i),
                admin_main_page_href(i),
            ),
{
    let text = admin_main_page_text(current_page, count);
    let pages = concat_pages(count, admin_main_page_links(current_page)) + r#"</ul>
        </nav>"#@;
    lemma_text_between(text.subrange(0, text.len() - pages.len()), pages, Seq::empty());
    assert(text =~= text.subrange(0, text.len() - pages.len()) + pages + Seq::<char>::empty());
    assert forall|i: nat| 1 <= i <= count implies (starts_with(
        #[trigger] admin_main_page_link(current_page, i),
        r#"
             <li class="page-item active">"#@,
    ) <==> i == current_page) && contains_text(
        admin_main_page_link(current_page, i),
        admin_main_page_href(i),
    ) by {
        reveal_strlit(r#"
             <li class="page-item active">"#);
        reveal_strlit(r#"
             <li class="page-item active">
              <a class="page-link "   "#);
        reveal_strlit(r#"
             <li class="page-item active">
              <a class="page-link "   href="/admin/posts/page/"#);
        reveal_strlit(r#"
             <li class="page-item">
              <a class="page-link "   "#);
        reveal_strlit(r#"
             <li class="page-item">
              <a class="page-link "   href="/admin/posts/page/"#);
        reveal_strlit(r#"""#);
        reveal_strlit(r#"">"#);
        reveal_strlit(r#"</a></li>"#);
        reveal_strlit(r#">"#);
        reveal_strlit(r#"href="/admin/posts/page/"#);
        let link = admin_main_page_link(current_page, i);
        let href = admin_main_page_href(i);
        if i == current_page {
            let pre = r#"
             <li class="page-item active">
              <a class="page-link "   "#@;
            let post = r#">"#@ + decimal_text(i) + r#"</a></li>"#@;
            assert(link =~= pre + href + post);
            lemma_text_between(pre, href, post);
            let marker = r#"
             <li class="page-item active">"#@;
            let rest = link.subrange(marker.len() as int, link.len() as int);
            assert(link =~= Seq::<char>::empty() + marker + rest);
            lemma_text_between(Seq::<char>::empty(), marker, rest);
        } else {
            let pre = r#"
             <li class="page-item">
              <a class="page-link "   "#@;
            let post = r#">"#@ + decimal_text(i) + r#"</a></li>"#@;
            assert(link =~= pre + href + post);
            lemma_text_between(pre, href, post);
            lemma_starts_differently(pre, href + post, r#"
             <li class="page-item active">"#@, 34);
        }
    }
}

fn admin_main_page_link_string(current_page: usize, i: usize) -> (r: String)
    ensures
        r@ == admin_main_page_link(current_page as nat, i as nat),
{
    if i == current_page {
        let mut s = String::from_str(r#"
             <li class="page-item active">
              <a class="page-link "   href="/admin/posts/page/"#);
        push_decimal(&mut s, i);
        s.append(r#"">"#);
        push_decimal(&mut s, i);
        s.append(r#"</a></li>"#);
        s
    } else {
        let mut s = String::from_str(r#"
             <li class="page-item">
              <a class="page-link "   href="/admin/posts/page/"#);
        push_decimal(&mut s, i);
        s.append(r#"">"#);
        push_decimal(&mut s, i);
        s.append(r#"</a></li>"#);
        s
    }
}

/// The pagination bar of the admin post table: one list item per page, the
/// current one marked active, and the list closed.
pub fn admin_main_page(current_page: usize, count_of_number_of_pages: usize) -> (r: String)
    ensures
        r@ == admin_main_page_text(current_page as nat, count_of_number_of_pages as nat),
{
    let mut s = String::from_str(r#"<div class="card mb-4">
                        <!-- Basic Pagination -->
                        <!-- Basic Pagination -->
                        <nav aria-label="Page navigation">
                        <ul class="pagination">
                        "#);
    let ghost head = s@;
    let mut i: usize = 0;
    while i < count_of_number_of_pages
        invariant
            i <= count_of_number_of_pages,
            s@ == head + concat_pages(i as nat, admin_main_page_links(current_page as nat)),
        decreases count_of_number_of_pages - i,
    {
        i = i + 1;
        let link = admin_main_page_link_string(current_page, i);
        s.append(link.as_str());
        proof {
            lemma_concat_pages_step(head, i as nat, admin_main_page_links(current_page as nat));
        }
    }
    s.append(r#"</ul>
        </nav>"#);
    s
}

pub open spec fn admin_category_posts_link(current_page: nat, category: Seq<char>, i: nat) -> Seq<char> {
    if i == current_page {
        r#"
            <li class="page-item active">
              <a class="page-link "  href="/admin/categories/"#@ + category + r#"/page/"#@ + decimal_text(i) + r#"">"#@ + decimal_text(i) + r#"</a>"#@
    } else {
        r#"<li class="page-item">
              <a class="page-link "   href="/admin/categories/"#@ + category + r#"/page/"#@ + decimal_text(i) + r#"">"#@ + decimal_text(i) + r#"</a> "#@
    }
}

pub open spec fn admin_category_posts_links(current_page: nat, category: Seq<char>) -> spec_fn(nat) -> Seq<char> {
    |i: nat| admin_category_posts_link(current_page, category, i)
}

/// The whole text of [`admin_category_posts`].
pub open spec fn admin_category_posts_text(current_page: nat, count: nat, category: Seq<char>) -> Seq<char> {
    r#"
     <div class="card mb-4">
   <!-- Basic Pagination -->
   <!-- Basic Pagination -->
    <nav aria-label="Page navigation">
  <ul class="pagination">"#@ + concat_pages(count, admin_category_posts_links(current_page, category))
}

/// Where the link of page `i` of the pagination bar of an admin category listing points.
pub open spec fn admin_category_posts_href(category: Seq<char>, i: nat) -> Seq<char> {
    r#"href="/admin/categories/"#@ + category + r#"/page/"#@ + decimal_text(i) + r#"""#@
}

/// The pagination bar of an admin category listing ends with one item per page, pages one to the
/// page count in order; the item of page `i` opens with
/// `<li class="page-item active">` exactly when `i` is the current page, and its link points at
/// `/admin/categories/{category}/page/{i}`.
#[verifier::spinoff_prover]
pub proof fn lemma_admin_category_posts_bar(current_page: nat, count: nat, category: Seq<char>)
    ensures
        ends_with(admin_category_posts_text(current_page, count, category), concat_pages(count, admin_category_posts_links(current_page, category))),
        forall|i: nat|
            1 <= i <= count ==> (starts_with(#[trigger] admin_category_posts_link(current_page, category, i), r#"
            <li class="page-item active">"#@)
                <==> i == current_page),
        forall|i: nat|
            1 <= i <= count ==> contains_text(
                #[trigger] admin_category_posts_link(current_page, category, i),
                admin_category_posts_href(category, i),
            ),
{
    let text = admin_category_posts_text(current_page, count, category);
    let pages = concat_pages(count, admin_category_posts_links(current_page, category));
    lemma_text_between(text.subrange(0, text.len() - pages.len()), pages, Seq::empty());
    assert(text =~= text.subrange(0, text.len() - pages.len()) + pages + Seq::<char>::empty());
    assert forall|i: nat| 1 <= i <= count implies (starts_with(
        #[trigger] admin_category_posts_link(current_page, category, i),
        r#"
            <li class="page-item active">"#@,
    ) <==> i == current_page) && contains_text(
        admin_category_posts_link(current_page, category, i),
        admin_category_posts_href(category, i),
    ) by {
        reveal_strlit(r#"
            <li class="page-item active">"#);
        reveal_strlit(r#"
            <li class="page-item active">
              <a class="page-link "  "#);
        reveal_strlit(r#"
            <li class="page-item active">
              <a class="page-link "  href="/admin/categories/"#);
        reveal_strlit(r#"""#);
        reveal_strlit(r#"">"#);
        reveal_strlit(r#"/page/"#);
        reveal_strlit(r#"</a>"#);
        reveal_strlit(r#"</a> "#);
        reveal_strlit(r#"<li class="page-item">
              <a class="page-link "   "#);
        reveal_strlit(r#"<li class="page-item">
              <a class="page-link "   href="/admin/categories/"#);
        reveal_strlit(r#">"#);
        reveal_strlit(r#"href="/admin/categories/"#);
        let link = admin_category_posts_link(current_page, category, i);
        let href = admin_category_posts_href(category, i);
        if i == current_page {
            let pre = r#"
            <li class="page-item active">
              <a class="page-link "  "#@;
            let post = r#">"#@ + decimal_text(i) + r#"</a>"#@;
            assert(link =~= pre + href + post);
            lemma_text_between(pre, href, post);
            let marker = r#"
            <li class="page-item active">"#@;
            let rest = link.subrange(marker.len() as int, link.len() as int);
            assert(link =~= Seq::<char>::empty() + marker + rest);
            lemma_text_between(Seq::<char>::empty(), marker, rest);
        } else {
            let pre = r#"<li class="page-item">
              <a class="page-link "   "#@;
            let post = r#">"#@ + decimal_text(i) + r#"</a> "#@;
            assert(link =~= pre + href + post);
            lemma_text_between(pre, href, post);
            lemma_starts_differently(pre, href + post, r#"
            <li class="page-item active">"#@, 0);
        }
    }
}

fn admin_category_posts_link_string(current_page: usize, category_input: &str, i: usize) -> (r: String)
    ensures
        r@ == admin_category_posts_link(current_page as nat, category_input@, i as nat),
{
    if i == current_page {
        let mut s = String::from_str(r#"
            <li class="page-item active">
              <a class="page-link "  href="/admin/categories/"#);
        s.append(category_input);
        s.append(r#"/page/"#);
        push_decimal(&mut s, i);
        s.append(r#"">"#);
        push_decimal(&mut s, i);
        s.append(r#"</a>"#);
        s
    } else {
        let mut s = String::from_str(r#"<li class="page-item">
              <a class="page-link "   href="/admin/categories/"#);
        s.append(category_input);
        s.append(r#"/page/"#);
        push_decimal(&mut s, i);
        s.append(r#"">"#);
        push_decimal(&mut s, i);
        s.append(r#"</a> "#);
        s
    }
}

/// The pagination bar of an admin category listing: one list item per page
/// under `/admin/categories/{category_input}`, the current one marked active.
pub fn admin_category_posts(current_page: usize, count_of_number_of_pages: usize, category_input: String) -> (r: String)
    ensures
        r@ == admin_category_posts_text(current_page as nat, count_of_number_of_pages as nat, category_input@),
{
    let mut s = String::from_str(r#"
     <div class="card mb-4">
   <!-- Basic Pagination -->
   <!-- Basic Pagination -->
    <nav aria-label="Page navigation">
  <ul class="pagination">"#);
    let ghost head = s@;
    let mut i: usize = 0;
    while i < count_of_number_of_pages
        invariant
            i <= count_of_number_of_pages,
            s@ == head + concat_pages(i as nat, admin_category_posts_links(current_page as nat, category_input@)),
        decreases count_of_number_of_pages - i,
    {
        i = i + 1;
        let link = admin_category_posts_link_string(current_page, category_input.as_str(), i);
        s.append(link.as_str());
        proof {
            lemma_concat_pages_step(head, i as nat, admin_category_posts_links(current_page as nat, category_input@));
        }
    }
    s
}

} // verus!
