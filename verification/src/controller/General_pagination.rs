//! Pagination bars of the guest and admin listings, built piece by piece.
use vstd::prelude::*;
use crate::text::{
    concat_pages,
    contains_text,
    decimal_text,
    ends_with,
    lemma_concat_pages_step,
    lemma_starts_differently,
    lemma_text_between,
    push_decimal,
    starts_with,
};

verus! {

pub open spec fn general_pagination_link(current_page: nat, i: nat) -> Seq<char> {
    if i == current_page {
        r#"<a class="active"  href="/posts/page/"#@ + decimal_text(i) + r#"">"#@ + decimal_text(i) + r#"</a>"#@
    } else {
        r#"<a style="margin: 0 4px;" href="/posts/page/"#@ + decimal_text(i) + r#"">"#@ + decimal_text(i) + r#"</a>"#@
    }
}

pub open spec fn general_pagination_links(current_page: nat) -> spec_fn(nat) -> Seq<char> {
    |i: nat| general_pagination_link(current_page, i)
}

/// The whole text of [`general_pagination`].
pub open spec fn general_pagination_text(current_page: nat, count: nat) -> Seq<char> {
    r#"
    <br>
<div class="paginations">
 "#@ + (if count == 0 {
        r#"<a class="active"  href="/posts/page/1">1</a>"#@
    } else {
        Seq::empty()
    }) + concat_pages(count, general_pagination_links(current_page))
}

/// Where the link of page `i` of the guest listing's pagination bar points.
pub open spec fn general_pagination_href(i: nat) -> Seq<char> {
    r#"href="/posts/page/"#@ + decimal_text(i) + r#"""#@
}

/// The guest listing's pagination bar ends with one item per page, pages one to the
/// page count in order; the item of page `i` opens with
/// `<a class="active"` exactly when `i` is the current page, and its link points at
/// `/posts/page/{i}`.
#[verifier::spinoff_prover]
pub proof fn lemma_general_pagination_bar(current_page: nat, count: nat)
    ensures
        ends_with(general_pagination_text(current_page, count), concat_pages(count, general_pagination_links(current_page))),
        forall|i: nat|
            1 <= i <= count ==> (starts_with(#[trigger] general_pagination_link(current_page, i), r#"<a class="active""#@)
                <==> i == current_page),
        forall|i: nat|
            1 <= i <= count ==> contains_text(
                #[trigger] general_pagination_link(current_page, i),
                general_pagination_href(i),
            ),
{
    let text = general_pagination_text(current_page, count);
    let pages = concat_pages(count, general_pagination_links(current_page));
    lemma_text_between(text.subrange(0, text.len() - pages.len()), pages, Seq::empty());
    assert(text =~= text.subrange(0, text.len() - pages.len()) + pages + Seq::<char>::empty());
    assert forall|i: nat| 1 <= i <= count implies (starts_with(
        #[trigger] general_pagination_link(current_page, i),
        r#"<a class="active""#@,
    ) <==> i == current_page) && contains_text(
        general_pagination_link(current_page, i),
        general_pagination_href(i),
    ) by {
        reveal_strlit(r#"""#);
        reveal_strlit(r#"">"#);
        reveal_strlit(r#"</a>"#);
        reveal_strlit(r#"<a class="active""#);
        reveal_strlit(r#"<a class="active"  "#);
        reveal_strlit(r#"<a class="active"  href="/posts/page/"#);
        reveal_strlit(r#"<a style="margin: 0 4px;" "#);
        reveal_strlit(r#"<a style="margin: 0 4px;" href="/posts/page/"#);
        reveal_strlit(r#">"#);
        reveal_strlit(r#"href="/posts/page/"#);
        let link = general_pagination_link(current_page, i);
        let href = general_pagination_href(i);
        if i == current_page {
            let pre = r#"<a class="active"  "#@;
            let post = r#">"#@ + decimal_text(i) + r#"</a>"#@;
            assert(link =~= pre + href + post);
            lemma_text_between(pre, href, post);
            let marker = r#"<a class="active""#@;
            let rest = link.subrange(marker.len() as int, link.len() as int);
            assert(link =~= Seq::<char>::empty() + marker + rest);
            lemma_text_between(Seq::<char>::empty(), marker, rest);
        } else {
            let pre = r#"<a style="margin: 0 4px;" "#@;
            let post = r#">"#@ + decimal_text(i) + r#"</a>"#@;
            assert(link =~= pre + href + post);
            lemma_text_between(pre, href, post);
            lemma_starts_differently(pre, href + post, r#"<a class="active""#@, 3);
        }
    }
}

/// The guest listing's pagination bar with no pages still shows one link, to page one, marked active.
pub proof fn lemma_general_pagination_without_pages(current_page: nat)
    ensures
        ends_with(general_pagination_text(current_page, 0), r#"<a class="active"  href="/posts/page/1">1</a>"#@),
{
    let text = general_pagination_text(current_page, 0);
    let lone = r#"<a class="active"  href="/posts/page/1">1</a>"#@;
    lemma_text_between(text.subrange(0, text.len() - lone.len()), lone, Seq::empty());
    assert(text =~= text.subrange(0, text.len() - lone.len()) + lone + Seq::<char>::empty());
}

fn general_pagination_link_string(current_page: usize, i: usize) -> (r: String)
    ensures
        r@ == general_pagination_link(current_page as nat, i as nat),
{
    if i == current_page {
        let mut s = String::from_str(r#"<a class="active"  href="/posts/page/"#);
        push_decimal(&mut s, i);
        s.append(r#"">"#);
        push_decimal(&mut s, i);
        s.append(r#"</a>"#);
        s
    } else {
        let mut s = String::from_str(r#"<a style="margin: 0 4px;" href="/posts/page/"#);
        push_decimal(&mut s, i);
        s.append(r#"">"#);
        push_decimal(&mut s, i);
        s.append(r#"</a>"#);
        s
    }
}

/// The guest pagination bar: a lone active link to page one when there are
/// no pages, then one link per page, the current one marked active.
pub fn general_pagination(current_page: usize, count_of_number_of_pages: usize) -> (r: String)
    requires
        count_of_number_of_pages < usize::MAX,
    ensures
        r@ == general_pagination_text(current_page as nat, count_of_number_of_pages as nat),
{
    let mut s = String::from_str(r#"
    <br>
<div class="paginations">
 "#);
    if count_of_number_of_pages == 0 {
        s.append(r#"<a class="active"  href="/posts/page/1">1</a>"#);
    }
    let ghost head = s@;
    let mut i: usize = 0;
    while i < count_of_number_of_pages
        invariant
            i <= count_of_number_of_pages,
            s@ == head + concat_pages(i as nat, general_pagination_links(current_page as nat)),
        decreases count_of_number_of_pages - i,
    {
        i = i + 1;
        let link = general_pagination_link_string(current_page, i);
        s.append(link.as_str());
        proof {
            lemma_concat_pages_step(head, i as nat, general_pagination_links(current_page as nat));
        }
    }
    s
}

pub open spec fn category_admin_bar_link(current_page: nat, i: nat) -> Seq<char> {
    if i == current_page {
        r#"

<li class="page-item active">
              <a class="page-link "   href="/admin/categories/page/"#@ + decimal_text(i) + r#"">"#@ + decimal_text(i) + r#"</a>"#@
    } else {
        r#"

<li class="page-item">
              <a class="page-link "   href="/admin/categories/page/"#@ + decimal_text(i) + r#"">"#@ + decimal_text(i) + r#"</a>"#@
    }
}

pub open spec fn category_admin_bar_links(current_page: nat) -> spec_fn(nat) -> Seq<char> {
    |i: nat| category_admin_bar_link(current_page, i)
}

/// The whole text of [`category_admin_bar`].
pub open spec fn category_admin_bar_text(current_page: nat, count: nat) -> Seq<char> {
    r#"<div class="card mb-4">
                                <!-- Basic Pagination -->
                                   <!-- Basic Pagination -->
                                                <nav aria-label="Page navigation">
                                                    <ul class="pagination">
                                            "#@ + concat_pages(count, category_admin_bar_links(current_page))
}

/// Where the link of page `i` of the admin category table's pagination bar points.
pub open spec fn category_admin_bar_href(i: nat) -> Seq<char> {
    r#"href="/admin/categories/page/"#@ + decimal_text(i) + r#"""#@
}

/// The admin category table's pagination bar ends with one item per page, pages one to the
/// page count in order; the item of page `i` opens with
/// `<li class="page-item active">` exactly when `i` is the current page, and its link points at
/// `/admin/categories/page/{i}`.
#[verifier::spinoff_prover]
pub proof fn lemma_category_admin_bar_bar(current_page: nat, count: nat)
    ensures
        ends_with(category_admin_bar_text(current_page, count), concat_pages(count, category_admin_bar_links(current_page))),
        forall|i: nat|
            1 <= i <= count ==> (starts_with(#[trigger] category_admin_bar_link(current_page, i), r#"

<li class="page-item active">"#@)
                <==> i == current_page),
        forall|i: nat|
            1 <= i <= count ==> contains_text(
                #[trigger] category_admin_bar_link(current_page, i),
                category_admin_bar_href(i),
            ),
{
    let text = category_admin_bar_text(current_page, count);
    let pages = concat_pages(count, category_admin_bar_links(current_page));
    lemma_text_between(text.subrange(0, text.len() - pages.len()), pages, Seq::empty());
    assert(text =~= text.subrange(0, text.len() - pages.len()) + pages + Seq::<char>::empty());
    assert forall|i: nat| 1 <= i <= count implies (starts_with(
        #[trigger] category_admin_bar_link(current_page, i),
        r#"

<li class="page-item active">"#@,
    ) <==> i == current_page) && contains_text(
        category_admin_bar_link(current_page, i),
        category_admin_bar_href(i),
    ) by {
        reveal_strlit(r#"

<li class="page-item active">"#);
        reveal_strlit(r#"

<li class="page-item active">
              <a class="page-link "   "#);
        reveal_strlit(r#"

<li class="page-item active">
              <a class="page-link "   href="/admin/categories/page/"#);
        reveal_strlit(r#"

<li class="page-item">
              <a class="page-link "   "#);
        reveal_strlit(r#"

<li class="page-item">
              <a class="page-link "   href="/admin/categories/page/"#);
        reveal_strlit(r#"""#);
        reveal_strlit(r#"">"#);
        reveal_strlit(r#"</a>"#);
        reveal_strlit(r#">"#);
        reveal_strlit(r#"href="/admin/categories/page/"#);
        let link = category_admin_bar_link(current_page, i);
        let href = category_admin_bar_href(i);
        if i == current_page {
            let pre = r#"

<li class="page-item active">
              <a class="page-link "   "#@;
            let post = r#">"#@ + decimal_text(i) + r#"</a>"#@;
            assert(link =~= pre + href + post);
            lemma_text_between(pre, href, post);
            let marker = r#"

<li class="page-item active">"#@;
            let rest = link.subrange(marker.len() as int, link.len() as int);
            assert(link =~= Seq::<char>::empty() + marker + rest);
            lemma_text_between(Seq::<char>::empty(), marker, rest);
        } else {
            let pre = r#"

<li class="page-item">
              <a class="page-link "   "#@;
            let post = r#">"#@ + decimal_text(i) + r#"</a>"#@;
            assert(link =~= pre + href + post);
            lemma_text_between(pre, href, post);
            lemma_starts_differently(pre, href + post, r#"

<li class="page-item active">"#@, 22);
        }
    }
}

fn category_admin_bar_link_string(current_page: usize, i: usize) -> (r: String)
    ensures
        r@ == category_admin_bar_link(current_page as nat, i as nat),
{
    if i == current_page {
        let mut s = String::from_str(r#"

<li class="page-item active">
              <a class="page-link "   href="/admin/categories/page/"#);
        push_decimal(&mut s, i);
        s.append(r#"">"#);
        push_decimal(&mut s, i);
        s.append(r#"</a>"#);
        s
    } else {
        let mut s = String::from_str(r#"

<li class="page-item">
              <a class="page-link "   href="/admin/categories/page/"#);
        push_decimal(&mut s, i);
        s.append(r#"">"#);
        push_decimal(&mut s, i);
        s.append(r#"</a>"#);
        s
    }
}

/// The admin category table's bar: one list item per page.
pub(crate) fn category_admin_bar(current_page: usize, count_of_number_of_pages: usize) -> (r: String)
    ensures
        r@ == category_admin_bar_text(current_page as nat, count_of_number_of_pages as nat),
{
    let mut s = String::from_str(r#"<div class="card mb-4">
                                <!-- Basic Pagination -->
                                   <!-- Basic Pagination -->
                                                <nav aria-label="Page navigation">
                                                    <ul class="pagination">
                                            "#);
    let ghost head = s@;
    let mut i: usize = 0;
    while i < count_of_number_of_pages
        invariant
            i <= count_of_number_of_pages,
            s@ == head + concat_pages(i as nat, category_admin_bar_links(current_page as nat)),
        decreases count_of_number_of_pages - i,
    {
        i = i + 1;
        let link = category_admin_bar_link_string(current_page, i);
        s.append(link.as_str());
        proof {
            lemma_concat_pages_step(head, i as nat, category_admin_bar_links(current_page as nat));
        }
    }
    s
}

pub open spec fn category_guest_bar_link(current_page: nat, category: Seq<char>, i: nat) -> Seq<char> {
    if i == current_page {
        r#"<a class="active"  href="/posts/category/"#@ + category + r#"/page/"#@ + decimal_text(i) + r#"">"#@ + decimal_text(i) + r#"</a>"#@
    } else {
        r#"<a style="margin: 0 4px;" href="/posts/category/"#@ + category + r#"/page/"#@ + decimal_text(i) + r#"">"#@ + decimal_text(i) + r#"</a>"#@
    }
}

pub open spec fn category_guest_bar_links(current_page: nat, category: Seq<char>) -> spec_fn(nat) -> Seq<char> {
    |i: nat| category_guest_bar_link(current_page, category, i)
}

/// The whole text of [`category_guest_bar`].
pub open spec fn category_guest_bar_text(current_page: nat, count: nat, category: Seq<char>) -> Seq<char> {
    r#"
    <br>
<div class="paginations">
 "#@ + (if count == 0 {
        r#"<a class="active"  href="/posts/page/1">1</a>"#@
    } else {
        Seq::empty()
    }) + concat_pages(count, category_guest_bar_links(current_page, category))
}

/// Where the link of page `i` of the pagination bar of a guest category listing points.
pub open spec fn category_guest_bar_href(category: Seq<char>, i: nat) -> Seq<char> {
    r#"href="/posts/category/"#@ + category + r#"/page/"#@ + decimal_text(i) + r#"""#@
}

/// The pagination bar of a guest category listing ends with one item per page, pages one to the
/// page count in order; the item of page `i` opens with
/// `<a class="active"` exactly when `i` is the current page, and its link points at
/// `/posts/category/{category}/page/{i}`.
#[verifier::spinoff_prover]
pub proof fn lemma_category_guest_bar_bar(current_page: nat, count: nat, category: Seq<char>)
    ensures
        ends_with(category_guest_bar_text(current_page, count, category), concat_pages(count, category_guest_bar_links(current_page, category))),
        forall|i: nat|
            1 <= i <= count ==> (starts_with(#[trigger] category_guest_bar_link(current_page, category, i), r#"<a class="active""#@)
                <==> i == current_page),
        forall|i: nat|
            1 <= i <= count ==> contains_text(
                #[trigger] category_guest_bar_link(current_page, category, i),
                category_guest_bar_href(category, i),
            ),
{
    let text = category_guest_bar_text(current_page, count, category);
    let pages = concat_pages(count, category_guest_bar_links(current_page, category));
    lemma_text_between(text.subrange(0, text.len() - pages.len()), pages, Seq::empty());
    assert(text =~= text.subrange(0, text.len() - pages.len()) + pages + Seq::<char>::empty());
    assert forall|i: nat| 1 <= i <= count implies (starts_with(
        #[trigger] category_guest_bar_link(current_page, category, i),
        r#"<a class="active""#@,
    ) <==> i == current_page) && contains_text(
        category_guest_bar_link(current_page, category, i),
        category_guest_bar_href(category, i),
    ) by {
        reveal_strlit(r#"""#);
        reveal_strlit(r#"">"#);
        reveal_strlit(r#"/page/"#);
        reveal_strlit(r#"</a>"#);
        reveal_strlit(r#"<a class="active""#);
        reveal_strlit(r#"<a class="active"  "#);
        reveal_strlit(r#"<a class="active"  href="/posts/category/"#);
        reveal_strlit(r#"<a style="margin: 0 4px;" "#);
        reveal_strlit(r#"<a style="margin: 0 4px;" href="/posts/category/"#);
        reveal_strlit(r#">"#);
        reveal_strlit(r#"href="/posts/category/"#);
        let link = category_guest_bar_link(current_page, category, i);
        let href = category_guest_bar_href(category, i);
        if i == current_page {
            let pre = r#"<a class="active"  "#@;
            let post = r#">"#@ + decimal_text(i) + r#"</a>"#@;
            assert(link =~= pre + href + post);
            lemma_text_between(pre, href, post);
            let marker = r#"<a class="active""#@;
            let rest = link.subrange(marker.len() as int, link.len() as int);
            assert(link =~= Seq::<char>::empty() + marker + rest);
            lemma_text_between(Seq::<char>::empty(), marker, rest);
        } else {
            let pre = r#"<a style="margin: 0 4px;" "#@;
            let post = r#">"#@ + decimal_text(i) + r#"</a>"#@;
            assert(link =~= pre + href + post);
            lemma_text_between(pre, href, post);
            lemma_starts_differently(pre, href + post, r#"<a class="active""#@, 3);
        }
    }
}

/// The pagination bar of a guest category listing with no pages still shows one link, to page one, marked active.
pub proof fn lemma_category_guest_bar_without_pages(current_page: nat, category: Seq<char>)
    ensures
        ends_with(category_guest_bar_text(current_page, 0, category), r#"<a class="active"  href="/posts/page/1">1</a>"#@),
{
    let text = category_guest_bar_text(current_page, 0, category);
    let lone = r#"<a class="active"  href="/posts/page/1">1</a>"#@;
    lemma_text_between(text.subrange(0, text.len() - lone.len()), lone, Seq::empty());
    assert(text =~= text.subrange(0, text.len() - lone.len()) + lone + Seq::<char>::empty());
}

fn category_guest_bar_link_string(current_page: usize, category_input: &str, i: usize) -> (r: String)
    ensures
        r@ == category_guest_bar_link(current_page as nat, category_input@, i as nat),
{
    if i == current_page {
        let mut s = String::from_str(r#"<a class="active"  href="/posts/category/"#);
        s.append(category_input);
        s.append(r#"/page/"#);
        push_decimal(&mut s, i);
        s.append(r#"">"#);
        push_decimal(&mut s, i);
        s.append(r#"</a>"#);
        s
    } else {
        let mut s = String::from_str(r#"<a style="margin: 0 4px;" href="/posts/category/"#);
        s.append(category_input);
        s.append(r#"/page/"#);
        push_decimal(&mut s, i);
        s.append(r#"">"#);
        push_decimal(&mut s, i);
        s.append(r#"</a>"#);
        s
    }
}

/// A guest category listing's bar: a lone active link to page one when
/// there are no pages, then one link per page under the category.
pub(crate) fn category_guest_bar(current_page: usize, count_of_number_of_pages: usize, category_input: &str) -> (r: String)
    ensures
        r@ == category_guest_bar_text(current_page as nat, count_of_number_of_pages as nat, category_input@),
{
    let mut s = String::from_str(r#"
    <br>
<div class="paginations">
 "#);
    if count_of_number_of_pages == 0 {
        s.append(r#"<a class="active"  href="/posts/page/1">1</a>"#);
    }
    let ghost head = s@;
    let mut i: usize = 0;
    while i < count_of_number_of_pages
        invariant
            i <= count_of_number_of_pages,
            s@ == head + concat_pages(i as nat, category_guest_bar_links(current_page as nat, category_input@)),
        decreases count_of_number_of_pages - i,
    {
        i = i + 1;
        let link = category_guest_bar_link_string(current_page, category_input, i);
        s.append(link.as_str());
        proof {
            lemma_concat_pages_step(head, i as nat, category_guest_bar_links(current_page as nat, category_input@));
        }
    }
    s
}

/// The whole text of [`general_pagination_with_category`].
pub open spec fn general_pagination_with_category_text(
    current_page: nat,
    count: nat,
    category: Seq<char>,
    admin: bool,
) -> Seq<char> {
    if admin {
        category_admin_bar_text(current_page, count)
    } else {
        category_guest_bar_text(current_page, count, category)
    }
}

/// The bar chosen for a category listing is the admin category table's when
/// `admin` is set, its items linking under `/admin/categories/page/`, and
/// otherwise the guest bar of the category, its items linking under
/// `/posts/category/{category}/page/`.
pub proof fn lemma_general_pagination_with_category_audience(
    current_page: nat,
    count: nat,
    category: Seq<char>,
    admin: bool,
)
    ensures
        admin ==> ends_with(
            general_pagination_with_category_text(current_page, count, category, admin),
            concat_pages(count, category_admin_bar_links(current_page)),
        ),
        !admin ==> ends_with(
            general_pagination_with_category_text(current_page, count, category, admin),
            concat_pages(count, category_guest_bar_links(current_page, category)),
        ),
{
    if admin {
        lemma_category_admin_bar_bar(current_page, count);
    } else {
        lemma_category_guest_bar_bar(current_page, count, category);
    }
}

/// The admin category table's bar when `admin` is set, else the bar of the
/// guest listing of `category_input`.
pub fn general_pagination_with_category(
    current_page: usize,
    count_of_number_of_pages: usize,
    category_input: &String,
    admin: bool,
) -> (r: String)
    requires
        count_of_number_of_pages < usize::MAX,
    ensures
        r@ == general_pagination_with_category_text(
            current_page as nat,
            count_of_number_of_pages as nat,
            category_input@,
            admin,
        ),
{
    if admin {
        category_admin_bar(current_page, count_of_number_of_pages)
    } else {
        category_guest_bar(current_page, count_of_number_of_pages, category_input.as_str())
    }
}

} // verus!
