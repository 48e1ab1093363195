//! Pagination bars of the admin tables, built piece by piece.
use vstd::prelude::*;
use crate::text::{
    concat_pages,
    contains_text,
    decimal_text,
    ends_with,
    lemma_concat_pages_step,
    lemma_starts_differently,
    lemma_text_between,
    push_decimal,
    starts_with,
};

verus! {

pub open spec fn admin_pagination_with_category_link(current_page: nat, i: nat) -> Seq<char> {
    if i == current_page {
        r#"
<li class="page-item active">
              <a class="page-link "   href="/admin/categories/page/"#@ + decimal_text(i) + r#"">"#@ + decimal_text(i) + r#"</a>"#@
    } else {
        r#"
<li class="page-item">
              <a class="page-link "   href="/admin/categories/page/"#@ + decimal_text(i) + r#"">"#@ + decimal_text(i) + r#"</a>"#@
    }
}

pub open spec fn admin_pagination_with_category_links(current_page: nat) -> spec_fn(nat) -> Seq<char> {
    |i: nat| admin_pagination_with_category_link(current_page, i)
}

/// The whole text of [`admin_pagination_with_category`].
pub open spec fn admin_pagination_with_category_text(current_page: nat, count: nat) -> Seq<char> {
    r#"<div class="card mb-4">
                                <!-- Basic Pagination -->
                                   <!-- Basic Pagination -->
                                                <nav aria-label="Page navigation">
                                                    <ul class="pagination">
                                            "#@ + concat_pages(count, admin_pagination_with_category_links(current_page))
}

/// Where the link of page `i` of the admin category table's pagination bar points.
pub open spec fn admin_pagination_with_category_href(i: nat) -> Seq<char> {
    r#"href="/admin/categories/page/"#@ + decimal_text(i) + r#"""#@
}

/// The admin category table's pagination bar ends with one item per page, pages one to the
/// page count in order; the item of page `i` opens with
/// `<li class="page-item active">` exactly when `i` is the current page, and its link points at
/// `/admin/categories/page/{i}`.
#[verifier::spinoff_prover]
pub proof fn lemma_admin_pagination_with_category_bar(current_page: nat, count: nat)
    ensures
        ends_with(admin_pagination_with_category_text(current_page, count), concat_pages(count, admin_pagination_with_category_links(current_page))),
        forall|i: nat|
            1 <= i <= count ==> (starts_with(#[trigger] admin_pagination_with_category_link(current_page, i), r#"
<li class="page-item active">"#@)
                <==> i == current_page),
        forall|i: nat|
            1 <= i <= count ==> contains_text(
                #[trigger] admin_pagination_with_category_link(current_page, i),
                admin_pagination_with_category_href(i),
            ),
{
    let text = admin_pagination_with_category_text(current_page, count);
    let pages = concat_pages(count, admin_pagination_with_category_links(current_page));
    lemma_text_between(text.subrange(0, text.len() - pages.len()), pages, Seq::empty());
    assert(text =~= text.subrange(0, text.len() - pages.len()) + pages + Seq::<char>::empty());
    assert forall|i: nat| 1 <= i <= count implies (starts_with(
        #[trigger] admin_pagination_with_category_link(current_page, i),
        r#"
<li class="page-item active">"#@,
    ) <==> i == current_page) && contains_text(
        admin_pagination_with_category_link(current_page, i),
        admin_pagination_with_category_href(i),
    ) by {
        reveal_strlit(r#"
<li class="page-item active">"#);
        reveal_strlit(r#"
<li class="page-item active">
              <a class="page-link "   "#);
        reveal_strlit(r#"
<li class="page-item active">
              <a class="page-link "   href="/admin/categories/page/"#);
        reveal_strlit(r#"
<li class="page-item">
              <a class="page-link "   "#);
        reveal_strlit(r#"
<li class="page-item">
              <a class="page-link "   href="/admin/categories/page/"#);
        reveal_strlit(r#"""#);
        reveal_strlit(r#"">"#);
        reveal_strlit(r#"</a>"#);
        reveal_strlit(r#">"#);
        reveal_strlit(r#"href="/admin/categories/page/"#);
        let link = admin_pagination_with_category_link(current_page, i);
        let href = admin_pagination_with_category_href(i);
        if i == current_page {
            let pre = r#"
<li class="page-item active">
              <a class="page-link "   "#@;
            let post = r#">"#@ + decimal_text(i) + r#"</a>"#@;
            assert(link =~= pre + href + post);
            lemma_text_between(pre, href, post);
            let marker = r#"
<li class="page-item active">"#@;
            let rest = link.subrange(marker.len() as int, link.len() as int);
            assert(link =~= Seq::<char>::empty() + marker + rest);
            lemma_text_between(Seq::<char>::empty(), marker, rest);
        } else {
            let pre = r#"
<li class="page-item">
              <a class="page-link "   "#@;
            let post = r#">"#@ + decimal_text(i) + r#"</a>"#@;
            assert(link =~= pre + href + post);
            lemma_text_between(pre, href, post);
            lemma_starts_differently(pre, href + post, r#"
<li class="page-item active">"#@, 21);
        }
    }
}

fn admin_pagination_with_category_link_string(current_page: usize, i: usize) -> (r: String)
    ensures
        r@ == admin_pagination_with_category_link(current_page as nat, i as nat),
{
    if i == current_page {
        let mut s = String::from_str(r#"
<li class="page-item active">
              <a class="page-link "   href="/admin/categories/page/"#);
        push_decimal(&mut s, i);
        s.append(r#"">"#);
        push_decimal(&mut s, i);
        s.append(r#"</a>"#);
        s
    } else {
        let mut s = String::from_str(r#"
<li class="page-item">
              <a class="page-link "   href="/admin/categories/page/"#);
        push_decimal(&mut s, i);
        s.append(r#"">"#);
        push_decimal(&mut s, i);
        s.append(r#"</a>"#);
        s
    }
}

/// The admin category table's bar: one list item per page, the current one
/// marked active.
pub fn admin_pagination_with_category(current_page: usize, count_of_number_of_pages: usize) -> (r: String)
    requires
        count_of_number_of_pages < usize::MAX,
    ensures
        r@ == admin_pagination_with_category_text(current_page as nat, count_of_number_of_pages as nat),
{
    let mut s = String::from_str(r#"<div class="card mb-4">
                                <!-- Basic Pagination -->
                                   <!-- Basic Pagination -->
                                                <nav aria-label="Page navigation">
                                                    <ul class="pagination">
                                            "#);
    let ghost head = s@;
    let mut i: usize = 0;
    while i < count_of_number_of_pages
        invariant
            i <= count_of_number_of_pages,
            s@ == head + concat_pages(i as nat, admin_pagination_with_category_links(current_page as nat)),
        decreases count_of_number_of_pages - i,
    {
        i = i + 1;
        let link = admin_pagination_with_category_link_string(current_page, i);
        s.append(link.as_str());
        proof {
            lemma_concat_pages_step(head, i as nat, admin_pagination_with_category_links(current_page as nat));
        }
    }
    s
}

pub open spec fn admin_pagination_main_page_link(current_page: nat, i: nat) -> Seq<char> {
    if i == current_page {
        r#"
             <li class="page-item active">
              <a class="page-link "   href="/admin/posts/page/"#@ + decimal_text(i) + r#"">"#@ + decimal_text(i) + r#"</a></li>"#@
    } else {
        r#"
             <li class="page-item">
              <a class="page-link "   href="/admin/posts/page/"#@ + decimal_text(i) + r#"">"#@ + decimal_text(i) + r#"</a></li>"#@
    }
}

pub open spec fn admin_pagination_main_page_links(current_page: nat) -> spec_fn(nat) -> Seq<char> {
    |i: nat| admin_pagination_main_page_link(current_page, i)
}

/// The whole text of [`admin_pagination_main_page`].
pub open spec fn admin_pagination_main_page_text(current_page: nat, count: nat) -> Seq<char> {
    r#"<div class="card mb-4">
                                <!-- Basic Pagination -->
                                   <!-- Basic Pagination -->
                                                <nav aria-label="Page navigation">
                                                    <ul class="pagination">
                                            "#@ + concat_pages(count, admin_pagination_main_page_links(current_page)) + r#"</ul>
        </nav>"#@
}

/// Where the link of page `i` of the admin post table's pagination bar points.
pub open spec fn admin_pagination_main_page_href(i: nat) -> Seq<char> {
    r#"href="/admin/posts/page/"#@ + decimal_text(i) + r#"""#@
}

/// The admin post table's pagination bar ends with one item per page, pages one to the
/// page count in order and then the closing of the list; the item of page `i` opens with
/// `<li class="page-item active">` exactly when `i` is the current page, and its link points at
/// `/admin/posts/page/{i}`.
#[verifier::spinoff_prover]
pub proof fn lemma_admin_pagination_main_page_bar(current_page: nat, count: nat)
    ensures
        ends_with(admin_pagination_main_page_text(current_page, count), concat_pages(count, admin_pagination_main_page_links(current_page)) + r#"</ul>
        </nav>"#@),
        forall|i: nat|
            1 <= i <= count ==> (starts_with(#[trigger] admin_pagination_main_page_link(current_page, i), r#"
             <li class="page-item active">"#@)
                <==> i == current_page),
        forall|i: nat|
            1 <= i <= count ==> contains_text(
                #[trigger] admin_pagination_main_page_link(current_page, i),
                admin_pagination_main_page_href(i),
            ),
{
    let text = admin_pagination_main_page_text(current_page, count);
    let pages = concat_pages(count, admin_pagination_main_page_links(current_page)) + r#"</ul>
        </nav>"#@;
    lemma_text_between(text.subrange(0, text.len() - pages.len()), pages, Seq::empty());
    assert(text =~= text.subrange(0, text.len() - pages.len()) + pages + Seq::<char>::empty());
    assert forall|i: nat| 1 <= i <= count implies (starts_with(
        #[trigger] admin_pagination_main_page_link(current_page, i),
        r#"
             <li class="page-item active">"#@,
    ) <==> i == current_page) && contains_text(
        admin_pagination_main_page_link(current_page, i),
        admin_pagination_main_page_href(i),
    ) by {
        reveal_strlit(r#"
             <li class="page-item active">"#);
        reveal_strlit(r#"
             <li class="page-item active">
              <a class="page-link "   "#);
        reveal_strlit(r#"
             <li class="page-item active">
              <a class="page-link "   href="/admin/posts/page/"#);
        reveal_strlit(r#"
             <li class="page-item">
              <a class="page-link "   "#);
        reveal_strlit(r#"
             <li class="page-item">
              <a class="page-link "   href="/admin/posts/page/"#);
        reveal_strlit(r#"""#);
        reveal_strlit(r#"">"#);
        reveal_strlit(r#"</a></li>"#);
        reveal_strlit(r#">"#);
        reveal_strlit(r#"href="/admin/posts/page/"#);
        let link = admin_pagination_main_page_link(current_page, i);
        let href = admin_pagination_main_page_href(i);
        if i == current_page {
            let pre = r#"
             <li class="page-item active">
              <a class="page-link "   "#@;
            let post = r#">"#@ + decimal_text(i) + r#"</a></li>"#@;
            assert(link =~= pre + href + post);
            lemma_text_between(pre, href, post);
            let marker = r#"
             <li class="page-item active">"#@;
            let rest = link.subrange(marker.len() as int, link.len() as int);
            assert(link =~= Seq::<char>::empty() + marker + rest);
            lemma_text_between(Seq::<char>::empty(), marker, rest);
        } else {
            let pre = r#"
             <li class="page-item">
              <a class="page-link "   "#@;
            let post = r#">"#@ + decimal_text(i) + r#"</a></li>"#@;
            assert(link =~= pre + href + post);
            lemma_text_between(pre, href, post);
            lemma_starts_differently(pre, href + post, r#"
             <li class="page-item active">"#@, 34);
        }
    }
}

fn admin_pagination_main_page_link_string(current_page: usize, i: usize) -> (r: String)
    ensures
        r@ == admin_pagination_main_page_link(current_page as nat, i as nat),
{
    if i == current_page {
        let mut s = String::from_str(r#"
             <li class="page-item active">
              <a class="page-link "   href="/admin/posts/page/"#);
        push_decimal(&mut s, i);
        s.append(r#"">"#);
        push_decimal(&mut s, i);
        s.append(r#"</a></li>"#);
        s
    } else {
        let mut s = String::from_str(r#"
             <li class="page-item">
              <a class="page-link "   href="/admin/posts/page/"#);
        push_decimal(&mut s, i);
        s.append(r#"">"#);
        push_decimal(&mut s, i);
        s.append(r#"</a></li>"#);
        s
    }
}

/// The admin post table's bar: one list item per page, the current one
/// marked active, and the list closed.
pub fn admin_pagination_main_page(current_page: usize, count_of_number_of_pages: usize) -> (r: String)
    requires
        count_of_number_of_pages < usize::MAX,
    ensures
        r@ == admin_pagination_main_page_text(current_page as nat, count_of_number_of_pages as nat),
{
    let mut s = String::from_str(r#"<div class="card mb-4">
                                <!-- Basic Pagination -->
                                   <!-- Basic Pagination -->
                                                <nav aria-label="Page navigation">
                                                    <ul class="pagination">
                                            "#);
    let ghost head = s@;
    let mut i: usize = 0;
    while i < count_of_number_of_pages
        invariant
            i <= count_of_number_of_pages,
            s@ == head + concat_pages(i as nat, admin_pagination_main_page_links(current_page as nat)),
        decreases count_of_number_of_pages - i,
    {
        i = i + 1;
        let link = admin_pagination_main_page_link_string(current_page, i);
        s.append(link.as_str());
        proof {
            lemma_concat_pages_step(head, i as nat, admin_pagination_main_page_links(current_page as nat));
        }
    }
    s.append(r#"</ul>
        </nav>"#);
    s
}

} // verus!
