use std::collections::HashMap;
use vstd::prelude::*;

use crate::server::Server;

verus! {

broadcast use vstd::std_specs::hash::group_hash_axioms;

/// The number of servers to page over, and the page size.
pub fn get_pagination_info(servers: &HashMap<usize, Server>, items_per_page: usize) -> (r: (
    usize,
    usize,
))
    ensures
        r.0 == servers@.len(),
        r.1 == items_per_page,
{
    (servers.len(), items_per_page)
}

/// How many pages `total_items` fill at `items_per_page` a page (the last
/// one may be partial). Pages of no items hold nothing: zero pages.
pub open spec fn total_pages_spec(total_items: nat, items_per_page: nat) -> nat {
    if items_per_page == 0 {
        0
    } else {
        ((total_items + items_per_page - 1) / items_per_page as int) as nat
    }
}

/// How many pages `total_items` fill at `items_per_page` a page.
pub fn total_pages(total_items: usize, items_per_page: usize) -> (r: usize)
    ensures
        r == total_pages_spec(total_items as nat, items_per_page as nat),
{
    if items_per_page == 0 {
        return 0;
    }
    let q = total_items / items_per_page;
    let rest = total_items % items_per_page;
    proof {
        let ghost t = total_items as int;
        let ghost p = items_per_page as int;
        assert(t == q * p + rest) by (nonlinear_arith)
            requires
                q == t / p,
                rest == t % p,
                p > 0,
        ;
        if rest == 0 {
            assert((t + p - 1) / p == q) by (nonlinear_arith)
                requires
                    t == q * p,
                    p > 0,
            ;
        } else {
            assert((t + p - 1) / p == q + 1) by (nonlinear_arith)
                requires
                    t == q * p + rest,
                    0 < rest < p,
                    p > 0,
            ;
            assert(q < t) by (nonlinear_arith)
                requires
                    t == q * p + rest,
                    0 < rest < p,
                    q >= 0,
            ;
        }
    }
    if rest == 0 {
        q
    } else {
        q + 1
    }
}

/// The page index kept in range: the last page when past it, and zero when
/// there are no pages.
pub open spec fn clamp_page_spec(current_page: nat, total_pages: nat) -> nat {
    if total_pages == 0 {
        0
    } else if current_page < total_pages {
        current_page
    } else {
        (total_pages - 1) as nat
    }
}

/// The page index kept in range.
pub fn clamp_page(current_page: usize, total_pages: usize) -> (r: usize)
    ensures
        r == clamp_page_spec(current_page as nat, total_pages as nat),
{
    if total_pages == 0 {
        0
    } else if current_page < total_pages {
        current_page
    } else {
        total_pages - 1
    }
}

/// `a` or `b`, whichever is smaller.
pub open spec fn min_int(a: int, b: int) -> int {
    if a < b {
        a
    } else {
        b
    }
}

/// The indices `[start, end)` of the items shown on page `current_page`,
/// cut off at `total_items`.
pub fn page_bounds(current_page: usize, items_per_page: usize, total_items: usize) -> (r: (
    usize,
    usize,
))
    ensures
        r.0 == min_int(current_page * items_per_page, total_items as int),
        r.1 == min_int((current_page + 1) * items_per_page, total_items as int),
{
    if items_per_page == 0 {
        return (0, 0);
    }
    let q = total_items / items_per_page;
    let ghost c = current_page as int;
    let ghost p = items_per_page as int;
    let ghost t = total_items as int;
    proof {
        assert(q * p <= t) by (nonlinear_arith)
            requires
                q == t / p,
                p > 0,
                t >= 0,
        ;
        assert((q + 1) * p > t) by (nonlinear_arith)
            requires
                q == t / p,
                p > 0,
                t >= 0,
        ;
    }
    let start = if current_page <= q {
        proof {
            assert(c * p <= q * p) by (nonlinear_arith)
                requires
                    c <= q,
                    p > 0,
            ;
        }
        current_page * items_per_page
    } else {
        proof {
            assert(c * p >= (q + 1) * p) by (nonlinear_arith)
                requires
                    c >= q + 1,
                    p > 0,
            ;
        }
        total_items
    };
    let end = if current_page < q {
        proof {
            assert((c + 1) * p <= q * p) by (nonlinear_arith)
                requires
                    c + 1 <= q,
                    p > 0,
            ;
        }
        (current_page + 1) * items_per_page
    } else {
        proof {
            assert((c + 1) * p >= (q + 1) * p) by (nonlinear_arith)
                requires
                    c >= q,
                    p > 0,
            ;
        }
        total_items
    };
    (start, end)
}

} // verus!
