//! Resolving a page request into a window over the stored links.
use vstd::prelude::*;

verus! {

/// Page served when a request names none.
pub const DEFAULT_PAGE: u64 = 1;

/// Page size used when a request names none.
pub const DEFAULT_LINKS_PER_PAGE: u64 = 30;

/// `v`, raised to 1 when it is 0: pages and page sizes are never sent downstream as 0.
pub open spec fn at_least_one(v: u64) -> u64 {
    if v == 0 {
        1
    } else {
        v
    }
}

/// Number of pages of `per_page` items that cover `total` items: the ceiling of
/// `total / per_page`.
pub open spec fn ceil_div(total: int, per_page: int) -> int {
    total / per_page + if total % per_page == 0 {
        0int
    } else {
        1int
    }
}

/// Index of the first item of `page` (counted from 1), saturated at `u64::MAX`,
/// which lies beyond any store.
pub open spec fn offset_of(page: int, per_page: int) -> int {
    if (page - 1) * per_page > u64::MAX {
        u64::MAX as int
    } else {
        (page - 1) * per_page
    }
}

/// The items of `items` that a window starting at `offset` and holding at most
/// `limit` items shows.
pub open spec fn window<A>(items: Seq<A>, offset: int, limit: int) -> Seq<A> {
    let start = if offset < items.len() {
        offset
    } else {
        items.len() as int
    };
    let end = if offset + limit < items.len() {
        offset + limit
    } else {
        items.len() as int
    };
    items.subrange(start, end)
}

/// A page request resolved against the number of stored items.
#[derive(Clone, Copy, Debug, PartialEq, Eq)]
pub struct PageWindow {
    /// The page served, counted from 1.
    pub page: u64,
    /// The number of items on a full page.
    pub per_page: u64,
    /// Index of the first item of the page.
    pub offset: u64,
    /// Largest number of items the page holds.
    pub limit: u64,
    /// Number of pages that cover all stored items.
    pub page_count: u64,
}

/// Resolves `page` and `per_page` (each raised to 1 when 0) against `total`
/// stored items. A page past the last one is no error: its window is empty.
pub fn paginate(page: u64, per_page: u64, total: u64) -> (r: PageWindow)
    ensures
        r.page == at_least_one(page),
        r.per_page == at_least_one(per_page),
        r.offset == offset_of(r.page as int, r.per_page as int),
        r.limit == r.per_page,
        r.page_count == ceil_div(total as int, r.per_page as int),
{
    let page = if page == 0 {
        1
    } else {
        page
    };
    let per_page = if per_page == 0 {
        1
    } else {
        per_page
    };
    let offset = match (page - 1).checked_mul(per_page) {
        Some(o) => o,
        None => u64::MAX,
    };
    let whole_pages = total / per_page;
    let page_count = if total % per_page == 0 {
        whole_pages
    } else {
        proof {
            let (t, p, q) = (total as int, per_page as int, whole_pages as int);
            vstd::arithmetic::div_mod::lemma_fundamental_div_mod(t, p);
            assert(q < u64::MAX) by (nonlinear_arith)
                requires
                    t == p * q + t % p,
                    0 < t % p < p,
                    t <= u64::MAX,
            {
            }
        }
        whole_pages + 1
    };
    PageWindow { page, per_page, offset, limit: per_page, page_count }
}

/// Page number and page size of a listing request: a missing value takes its
/// default, and 0 is raised to 1.
pub fn resolve_page_request(page: Option<u64>, links_per_page: Option<u64>) -> (r: (u64, u64))
    ensures
        r.0 == at_least_one(
            match page {
                Some(p) => p,
                None => DEFAULT_PAGE,
            },
        ),
        r.1 == at_least_one(
            match links_per_page {
                Some(n) => n,
                None => DEFAULT_LINKS_PER_PAGE,
            },
        ),
{
    let page = match page {
        Some(p) => p,
        None => DEFAULT_PAGE,
    };
    let links_per_page = match links_per_page {
        Some(n) => n,
        None => DEFAULT_LINKS_PER_PAGE,
    };
    (if page == 0 {
        1
    } else {
        page
    }, if links_per_page == 0 {
        1
    } else {
        links_per_page
    })
}

/// The page count is the ceiling of `total / per_page`: that many pages hold
/// every item, one page fewer does not, and there are no pages exactly when
/// there are no items.
pub proof fn lemma_page_count_is_ceiling(total: int, per_page: int)
    requires
        0 <= total,
        1 <= per_page,
    ensures
        ceil_div(total, per_page) * per_page >= total,
        total > 0 ==> (ceil_div(total, per_page) - 1) * per_page < total,
        ceil_div(total, per_page) == 0 <==> total == 0,
{
    let q = total / per_page;
    let r = total % per_page;
    assert(total == q * per_page + r && 0 <= r < per_page) by {
        vstd::arithmetic::div_mod::lemma_fundamental_div_mod(total, per_page);
    }
    assert(q >= 0) by {
        vstd::arithmetic::div_mod::lemma_div_pos_is_pos(total, per_page);
    }
    assert(ceil_div(total, per_page) * per_page >= total) by (nonlinear_arith)
        requires
            total == q * per_page + r,
            0 <= r < per_page,
            ceil_div(total, per_page) == q + if r == 0 {
                0int
            } else {
                1int
            },
    {
    }
    assert(total > 0 ==> (ceil_div(total, per_page) - 1) * per_page < total) by (nonlinear_arith)
        requires
            total == q * per_page + r,
            0 <= r < per_page,
            q >= 0,
            ceil_div(total, per_page) == q + if r == 0 {
                0int
            } else {
                1int
            },
    {
    }
    assert(ceil_div(total, per_page) == 0 ==> total == 0) by (nonlinear_arith)
        requires
            total == q * per_page + r,
            0 <= r < per_page,
            q >= 0,
            ceil_div(total, per_page) == q + if r == 0 {
                0int
            } else {
                1int
            },
    {
    }
}

/// A page past the last page starts at or beyond the end of the stored items,
/// so its window is empty.
pub proof fn lemma_page_past_end_is_empty<A>(items: Seq<A>, page: int, per_page: int)
    requires
        items.len() <= u64::MAX,
        1 <= per_page,
        page > ceil_div(items.len() as int, per_page),
    ensures
        offset_of(page, per_page) >= items.len(),
        window(items, offset_of(page, per_page), per_page).len() == 0,
{
    let total = items.len() as int;
    let c = ceil_div(total, per_page);
    lemma_page_count_is_ceiling(total, per_page);
    assert((page - 1) * per_page >= c * per_page) by (nonlinear_arith)
        requires
            page - 1 >= c,
            per_page >= 1,
    {
    }
}

} // verus!
