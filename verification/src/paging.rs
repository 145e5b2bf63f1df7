//! Page windows of the transaction and CFDI listings.

use vstd::prelude::*;

verus! {

/// Rows shown per page by the transaction and CFDI listings.
pub const PER_PAGE: u64 = 50;

/// The page a listing shows: its number, how many pages there are, and the
/// half-open range of rows on it.
#[derive(Debug, Clone, Copy, PartialEq, Eq, Structural)]
pub struct PageWindow {
    pub page: u64,
    pub total_pages: u64,
    pub start: u64,
    pub end: u64,
}

pub open spec fn pages_for(total: int, per_page: int) -> int {
    (total + per_page - 1) / per_page
}

/// The requested page clamped between the first and the last page (a listing
/// without rows still has page 1).
pub open spec fn clamp_page(requested: int, total_pages: int) -> int {
    let last = if total_pages > 1 { total_pages } else { 1 };
    if requested < 1 {
        1
    } else if requested > last {
        last
    } else {
        requested
    }
}

pub fn page_window(total: u64, requested: u64, per_page: u64) -> (w: PageWindow)
    requires
        per_page > 0,
        total + per_page <= u64::MAX,
    ensures
        w.total_pages == pages_for(total as int, per_page as int),
        w.page == clamp_page(requested as int, w.total_pages as int),
        w.start == (w.page - 1) * per_page,
        w.end == if w.start + per_page < total { w.start + per_page } else { total as int },
        w.start <= w.end <= total,
        total > 0 ==> w.start < w.end,
        w.end - w.start <= per_page,
{
    let total_pages = (total + per_page - 1) / per_page;
    assert(total_pages as int == (total + per_page - 1) / (per_page as int));
    let last = if total_pages > 1 { total_pages } else { 1 };
    let page = if requested < 1 {
        1
    } else if requested > last {
        last
    } else {
        requested
    };
    proof {
        assert(total_pages * per_page <= total + per_page - 1) by (nonlinear_arith)
            requires
                total_pages as int == (total + per_page - 1) / (per_page as int),
                per_page > 0,
                total + per_page - 1 >= 0,
        ;
        assert(total > 0 ==> total_pages * per_page >= total) by (nonlinear_arith)
            requires
                total_pages as int == (total + per_page - 1) / (per_page as int),
                per_page > 0,
        ;
        assert(total > 0 ==> total_pages >= 1) by (nonlinear_arith)
            requires
                total > 0 ==> total_pages * per_page >= total,
                per_page > 0,
        ;
        assert(total == 0 ==> total_pages == 0) by (nonlinear_arith)
            requires
                total_pages as int == (total + per_page - 1) / (per_page as int),
                per_page > 0,
        ;
        assert((page - 1) * per_page <= (last - 1) * per_page) by (nonlinear_arith)
            requires
                1 <= page <= last,
                per_page > 0,
        ;
        assert(total > 0 ==> (last - 1) * per_page < total) by (nonlinear_arith)
            requires
                total > 0 ==> last == total_pages,
                total_pages * per_page <= total + per_page - 1,
                per_page > 0,
        ;
        assert(total == 0 ==> (page - 1) * per_page == 0) by (nonlinear_arith)
            requires
                total == 0 ==> page == 1,
        ;
    }
    let start = (page - 1) * per_page;
    let end = if start + per_page < total { start + per_page } else { total };
    PageWindow { page, total_pages, start, end }
}

/// Every row of a listing is on exactly one page: row `i` is on page
/// `i / per_page + 1`, and on no other page.
pub proof fn lemma_row_on_one_page(total: int, per_page: int, i: int, p: int)
    requires
        per_page > 0,
        0 <= i < total,
        1 <= p,
    ensures
        ((p - 1) * per_page <= i < p * per_page) <==> p == i / per_page + 1,
        i / per_page + 1 <= pages_for(total, per_page),
{
    assert(((p - 1) * per_page <= i < p * per_page) <==> p == i / per_page + 1) by (nonlinear_arith)
        requires
            per_page > 0,
            0 <= i,
            1 <= p,
    {
        let q = i / per_page;
        let r = i % per_page;
        assert(i == q * per_page + r && 0 <= r < per_page);
        if (p - 1) * per_page <= i && i < p * per_page {
            assert(p - 1 <= q) by {
                if p - 1 > q {
                    assert((p - 1) * per_page >= (q + 1) * per_page);
                }
            }
            assert(q <= p - 1) by {
                if q > p - 1 {
                    assert(q * per_page >= p * per_page);
                }
            }
        }
    }
    assert(i / per_page + 1 <= (total + per_page - 1) / per_page) by (nonlinear_arith)
        requires
            per_page > 0,
            0 <= i < total,
    {
        let q = i / per_page;
        assert(q * per_page <= i);
        assert((q + 1) * per_page <= total + per_page - 1);
        assert((total + per_page - 1) / per_page >= q + 1) by {
            vstd::arithmetic::div_mod::lemma_div_is_ordered((q + 1) * per_page, total + per_page - 1, per_page);
            vstd::arithmetic::div_mod::lemma_div_multiples_vanish(q + 1, per_page);
        }
    }
}

/// The pages of a listing split its rows: page `p` shows the rows from
/// `(p - 1) * per_page` up to `p * per_page` or the end of the listing,
/// whichever comes first; that range lies inside the listing, holds at most
/// `per_page` rows, and row `i` lies in it exactly when `p` is the page of `i`.
pub proof fn lemma_pages_split_listing(total: int, per_page: int, p: int, i: int)
    requires
        per_page > 0,
        1 <= p <= pages_for(total, per_page),
        0 <= i < total,
    ensures
        0 <= (p - 1) * per_page < (if p * per_page < total { p * per_page } else { total }),
        (if p * per_page < total { p * per_page } else { total }) <= total,
        (if p * per_page < total { p * per_page } else { total }) - (p - 1) * per_page <= per_page,
        ((p - 1) * per_page <= i < (if p * per_page < total { p * per_page } else { total })) <==> p == i / per_page + 1,
{
    lemma_row_on_one_page(total, per_page, i, p);
    assert(p * per_page == (p - 1) * per_page + per_page) by (nonlinear_arith);
    assert(0 <= (p - 1) * per_page) by (nonlinear_arith)
        requires
            1 <= p,
            per_page > 0,
    ;
    assert((p - 1) * per_page < total) by (nonlinear_arith)
        requires
            per_page > 0,
            1 <= p <= (total + per_page - 1) / per_page,
    {
        assert(p * per_page <= total + per_page - 1) by {
            vstd::arithmetic::div_mod::lemma_div_is_ordered(p * per_page, ((total + per_page - 1) / per_page) * per_page, per_page);
            vstd::arithmetic::div_mod::lemma_fundamental_div_mod(total + per_page - 1, per_page);
            vstd::arithmetic::mul::lemma_mul_inequality(p, (total + per_page - 1) / per_page, per_page);
        }
    }
}

/// The page asked of the CFDI listing.
#[derive(Debug, Clone, Copy)]
pub struct PageQuery {
    pub page: u64,
}

/// The CFDI listing opens on its first page.
pub fn default_page() -> (p: u64)
    ensures
        p == 1,
{
    1
}

/// The page of the CFDI listing to show, of `total` stored CFDIs.
pub fn cfdi_page(total: u64, query: PageQuery) -> (w: PageWindow)
    requires
        total + PER_PAGE <= u64::MAX,
    ensures
        w.total_pages == pages_for(total as int, PER_PAGE as int),
        w.page == clamp_page(query.page as int, w.total_pages as int),
        w.start == (w.page - 1) * PER_PAGE,
        w.end == if w.start + PER_PAGE < total { w.start + PER_PAGE } else { total as int },
        w.start <= w.end <= total,
        w.end - w.start <= PER_PAGE,
        total > 0 ==> w.start < w.end,
{
    page_window(total, query.page, PER_PAGE)
}

/// The page of the transaction listing to show, of `total` transactions of
/// the company.
pub fn transaction_page(total: usize, page: usize) -> (w: PageWindow)
    requires
        total + PER_PAGE <= u64::MAX,
    ensures
        w.total_pages == pages_for(total as int, PER_PAGE as int),
        w.page == clamp_page(page as int, w.total_pages as int),
        w.start == (w.page - 1) * PER_PAGE,
        w.end == if w.start + PER_PAGE < total { w.start + PER_PAGE } else { total as int },
        w.start <= w.end <= total,
        w.end - w.start <= PER_PAGE,
        total > 0 ==> w.start < w.end,
{
    page_window(total as u64, page as u64, PER_PAGE)
}

} // verus!
