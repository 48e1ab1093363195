//! Pure pagination business rules: no I/O, no framework types.
use vstd::prelude::*;

verus! {

/// Default number of items shown per listing page across the app.
pub const DEFAULT_PAGE_SIZE: i64 = 3;

/// A resolved, in-range page position.
#[derive(Debug, Clone, Copy, PartialEq, Eq, Structural)]
pub struct Page {
    pub current: usize,
    pub total: usize,
}

/// A page of items, together with the resolved page position and the total
/// item count across all pages.
#[derive(Debug, Clone, PartialEq)]
pub struct Listing<T> {
    pub items: Vec<T>,
    pub page: Page,
    pub total_items: i64,
}

/// Rust's `/` on signed integers: the quotient rounded toward zero.
pub open spec fn trunc_div(a: int, b: int) -> int {
    let q = abs(a) / abs(b);
    if (a < 0) != (b < 0) { -q } else { q }
}

/// Rust's `%` on signed integers: the remainder, with the sign of `a`.
pub open spec fn trunc_rem(a: int, b: int) -> int {
    let r = abs(a) % abs(b);
    if a < 0 { -r } else { r }
}

pub open spec fn abs(a: int) -> int {
    if a < 0 { -a } else { a }
}

/// The page count: the truncated quotient, plus one when a remainder is left.
pub open spec fn spec_total_pages(total_items: int, per_page: int) -> int {
    trunc_div(total_items, per_page) + if trunc_rem(total_items, per_page) != 0 {
        1int
    } else {
        0int
    }
}

/// The number of pages a listing resolves against, as a `usize`: the page
/// count, raised to one when `clamp_min_one_page` is set and it is zero.
pub open spec fn spec_page_count(total_items: int, per_page: int, clamp_min_one_page: bool) -> usize {
    let total = spec_total_pages(total_items, per_page) as usize;
    if clamp_min_one_page && total < 1 { 1 } else { total }
}

/// The page that `page_param` resolves to, or `None` when it is out of range.
pub open spec fn spec_resolve_page(
    page_param: i64,
    total_items: i64,
    per_page: i64,
    clamp_min_one_page: bool,
) -> Option<Page> {
    let total = spec_page_count(total_items as int, per_page as int, clamp_min_one_page);
    let current = page_param as usize;
    if current == 0 || current > total {
        None
    } else {
        Some(Page { current, total })
    }
}

/// The page numbers `1, 2, ..., total`.
pub open spec fn page_number_seq(total: nat) -> Seq<usize> {
    Seq::new(total, |k: int| (k + 1) as usize)
}

/// Lists the page numbers `1..=total`, as the templates number their links.
pub fn page_numbers(total: usize) -> (r: Vec<usize>)
    ensures
        r@ == page_number_seq(total as nat),
{
    let mut v: Vec<usize> = Vec::new();
    let mut i: usize = 0;
    while i < total
        invariant
            i <= total,
            v@ == page_number_seq(i as nat),
        decreases total - i,
    {
        i = i + 1;
        v.push(i);
        assert(v@ =~= page_number_seq(i as nat));
    }
    v
}

/// The page numbers `1, 2, ..., n` as `i64`s; none when `n` is not positive.
pub open spec fn page_number_seq_i64(n: int) -> Seq<i64> {
    Seq::new(if n > 0 { n as nat } else { 0 }, |k: int| (k + 1) as i64)
}

/// Lists the page numbers `1..=n`.
pub fn page_numbers_i64(n: i64) -> (r: Vec<i64>)
    ensures
        r@ == page_number_seq_i64(n as int),
{
    let mut v: Vec<i64> = Vec::new();
    let mut i: i64 = 0;
    while i < n
        invariant
            0 <= i,
            n > 0 ==> i <= n,
            n <= 0 ==> i == 0,
            v@ == page_number_seq_i64(i as int),
        decreases n - i,
    {
        i = i + 1;
        v.push(i);
        assert(v@ =~= page_number_seq_i64(i as int));
    }
    if n <= 0 {
        assert(v@ =~= page_number_seq_i64(n as int));
    }
    v
}

/// The page numbers count up from one: there are `n` of them (none when `n`
/// is not positive), the `k`-th is `k + 1`, and each is one more than the
/// one before.
pub proof fn lemma_page_numbers_count_up(n: i64, total: usize)
    ensures
        page_number_seq_i64(n as int).len() == (if n > 0 { n as int } else { 0 }),
        forall|k: int|
            0 <= k < page_number_seq_i64(n as int).len() ==> #[trigger] page_number_seq_i64(
                n as int,
            )[k] == k + 1,
        page_number_seq(total as nat).len() == total,
        forall|k: int|
            0 <= k < total ==> #[trigger] page_number_seq(total as nat)[k] == k + 1,
{
}

/// The inputs on which the page count is defined: a nonzero page size, and
/// not the one quotient that overflows an `i64`.
pub open spec fn page_size_ok(total_items: i64, per_page: i64) -> bool {
    per_page != 0 && !(total_items == i64::MIN && per_page == -1)
}

proof fn lemma_quotient_fits(a: int, b: int)
    requires
        b != 0,
        i64::MIN <= a <= i64::MAX,
        i64::MIN <= b <= i64::MAX,
        !(a == i64::MIN && b == -1),
    ensures
        i64::MIN <= spec_total_pages(a, b) <= i64::MAX,
{
    let aa = abs(a);
    let ab = abs(b);
    assert(0 <= aa / ab <= aa) by (nonlinear_arith)
        requires aa >= 0, ab >= 1;
    if aa % ab != 0 {
        assert(ab >= 2);
        assert(aa / ab <= aa / 2) by (nonlinear_arith)
            requires aa >= 0, ab >= 2;
    } else if aa / ab == aa && aa > i64::MAX {
        assert(ab == 1) by (nonlinear_arith)
            requires aa / ab == aa, aa > 0, ab >= 1;
    }
}

/// Total number of pages needed to show `total_items` at `per_page` items per page.
pub fn total_pages(total_items: i64, per_page: i64) -> (r: i64)
    requires
        page_size_ok(total_items, per_page),
    ensures
        r == spec_total_pages(total_items as int, per_page as int),
{
    proof { lemma_quotient_fits(total_items as int, per_page as int); }
    let t = total_items as i128;
    let p = per_page as i128;
    let at: i128 = if t < 0 { -t } else { t };
    let ap: i128 = if p < 0 { -p } else { p };
    let q: i128 = at / ap;
    let rem: i128 = at % ap;
    let pages: i128 = if (t < 0) != (p < 0) { -q } else { q };
    if rem != 0 {
        (pages + 1) as i64
    } else {
        pages as i64
    }
}

/// Validates a 1-indexed `page_param` against the item/page-size counts.
///
/// Returns the resolved page on success, or `None` if the requested page is
/// out of range. When `clamp_min_one_page` is set, a listing with zero items
/// still counts as having one (empty) page rather than never resolving.
pub fn resolve_page(
    page_param: i64,
    total_items: i64,
    per_page: i64,
    clamp_min_one_page: bool,
) -> (r: Option<Page>)
    requires
        page_size_ok(total_items, per_page),
    ensures
        r == spec_resolve_page(page_param, total_items, per_page, clamp_min_one_page),
{
    let mut total = total_pages(total_items, per_page) as usize;
    if clamp_min_one_page && total < 1 {
        total = 1;
    }
    let current = page_param as usize;

    if current == 0 || current > total {
        None
    } else {
        Some(Page { current, total })
    }
}


/// For a nonnegative item count and a positive page size, the page count is
/// the item count divided by the page size, rounded up: every item fits in
/// that many pages, one page fewer leaves some out, and there are no pages
/// exactly when there are no items.
pub proof fn lemma_total_pages_rounds_up(total_items: i64, per_page: i64)
    requires
        total_items >= 0,
        per_page > 0,
    ensures
        spec_total_pages(total_items as int, per_page as int)
            == (total_items + per_page - 1) / (per_page as int),
        spec_total_pages(total_items as int, per_page as int) * per_page >= total_items,
        total_items > 0 ==> (spec_total_pages(total_items as int, per_page as int) - 1) * per_page
            < total_items,
        (spec_total_pages(total_items as int, per_page as int) == 0) == (total_items == 0),
{
    let t = total_items as int;
    let p = per_page as int;
    let q = t / p;
    let r = t % p;
    assert(t == q * p + r && 0 <= r < p && q >= 0) by (nonlinear_arith)
        requires t >= 0, p > 0, q == t / p, r == t % p;
    if r != 0 {
        assert((t + p - 1) / p == q + 1) by (nonlinear_arith)
            requires t == q * p + r, 0 < r < p;
        assert((q + 1) * p >= t && q * p < t) by (nonlinear_arith)
            requires t == q * p + r, 0 < r < p;
    } else {
        assert((t + p - 1) / p == q) by (nonlinear_arith)
            requires t == q * p, p > 0;
        assert(q * p >= t && (t > 0 ==> (q - 1) * p < t) && (q == 0) == (t == 0))
            by (nonlinear_arith)
            requires t == q * p, p > 0, q >= 0;
    }
}

/// On nonnegative counts and a positive page size that fit in a `usize`, a
/// requested page resolves exactly when it lies between one and the page
/// count (raised to one when clamping), and then it resolves to itself.
pub proof fn lemma_resolve_page_in_range(
    page_param: i64,
    total_items: i64,
    per_page: i64,
    clamp_min_one_page: bool,
)
    requires
        total_items >= 0,
        per_page > 0,
        0 <= page_param <= usize::MAX,
        total_items <= usize::MAX,
    ensures
        ({
            let pages = spec_total_pages(total_items as int, per_page as int);
            let count = if clamp_min_one_page && pages < 1 { 1 } else { pages };
            &&& (spec_resolve_page(page_param, total_items, per_page, clamp_min_one_page) is Some)
                == (1 <= page_param <= count)
            &&& spec_resolve_page(page_param, total_items, per_page, clamp_min_one_page) matches Some(page)
                ==> page.current == page_param && page.total == count
        }),
{
    lemma_total_pages_rounds_up(total_items, per_page);
    let pages = spec_total_pages(total_items as int, per_page as int);
    assert(0 <= pages <= total_items) by (nonlinear_arith)
        requires pages * per_page >= total_items, total_items > 0 ==> (pages - 1) * per_page
            < total_items, (pages == 0) == (total_items == 0), per_page > 0, total_items >= 0;
}

/// A resolved page always lies between one and the page count.
pub proof fn lemma_resolved_page_bounds(
    page_param: i64,
    total_items: i64,
    per_page: i64,
    clamp_min_one_page: bool,
)
    ensures
        spec_resolve_page(page_param, total_items, per_page, clamp_min_one_page) matches Some(page)
            ==> 1 <= page.current <= page.total,
{
}

/// With clamping, page one always resolves, so redirecting an out-of-range
/// request to page one never loops; without it, page one resolves exactly
/// when the listing has at least one page.
pub proof fn lemma_first_page_resolves(total_items: i64, per_page: i64)
    ensures
        spec_resolve_page(1, total_items, per_page, true) == Some(
            Page { current: 1, total: spec_page_count(total_items as int, per_page as int, true) },
        ),
        (spec_resolve_page(1, total_items, per_page, false) is Some) == (spec_page_count(
            total_items as int,
            per_page as int,
            false,
        ) >= 1),
{
}

/// Clamping only adds page one of an empty listing: every page that resolves
/// without the clamp resolves the same way with it; when the listing has
/// items (and their count fits in a `usize`), the two agree on every page;
/// and a page that resolves only with the clamp is page one of a listing
/// with no pages.
pub proof fn lemma_clamp_only_adds_empty_first_page(
    page_param: i64,
    total_items: i64,
    per_page: i64,
)
    requires
        per_page > 0,
        total_items >= 0,
    ensures
        spec_resolve_page(page_param, total_items, per_page, false) matches Some(x) ==> spec_resolve_page(
            page_param,
            total_items,
            per_page,
            true,
        ) == Some(x),
        total_items > 0 && total_items <= usize::MAX ==> spec_resolve_page(
            page_param,
            total_items,
            per_page,
            true,
        ) == spec_resolve_page(page_param, total_items, per_page, false),
        (spec_resolve_page(page_param, total_items, per_page, true) is Some && spec_resolve_page(
            page_param,
            total_items,
            per_page,
            false,
        ) is None) ==> page_param as usize == 1 && spec_page_count(
            total_items as int,
            per_page as int,
            false,
        ) == 0,
{
    if total_items > 0 && total_items <= usize::MAX {
        lemma_total_pages_rounds_up(total_items, per_page);
        let pages = spec_total_pages(total_items as int, per_page as int);
        assert(1 <= pages <= total_items) by (nonlinear_arith)
            requires
                pages * per_page >= total_items,
                (pages - 1) * per_page < total_items,
                (pages == 0) == (total_items == 0),
                per_page > 0,
                total_items > 0,
        ;
        assert(pages as usize == pages);
    }
}

/// The pages that resolve are closed downward: when page `k` resolves, every
/// page from one to `k` resolves too, against the same page count.
pub proof fn lemma_resolvable_pages_downward_closed(
    k: i64,
    j: i64,
    total_items: i64,
    per_page: i64,
    clamp_min_one_page: bool,
)
    requires
        1 <= j <= k,
        k <= usize::MAX,
    ensures
        spec_resolve_page(k, total_items, per_page, clamp_min_one_page) matches Some(pk) ==> (
        spec_resolve_page(j, total_items, per_page, clamp_min_one_page) matches Some(pj) && pj.total
            == pk.total && pj.current == j),
{
}

} // verus!
