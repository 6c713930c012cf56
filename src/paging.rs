//! Page arithmetic for the thread listing.
use vstd::prelude::*;

verus! {

/// Threads per page when the request names no allowed size.
pub const DEFAULT_PER_PAGE: usize = 10;

/// The page sizes a request may choose.
pub open spec fn allowed_per_page(n: nat) -> bool {
    n == 10 || n == 25 || n == 50
}

/// Pages needed to show `total` threads, `per` to a page; never fewer than one.
pub open spec fn page_count(total: nat, per: nat) -> nat
    recommends
        per > 0,
{
    if total == 0 {
        1
    } else if total % per == 0 {
        total / per
    } else {
        total / per + 1
    }
}

/// The 1-based page a request resolves to.
pub open spec fn page_of(page: Option<usize>) -> nat {
    match page {
        Some(p) if p >= 1 => p as nat,
        _ => 1,
    }
}

/// The page size a request resolves to.
pub open spec fn per_page_of(per_page: Option<usize>) -> nat {
    match per_page {
        Some(n) if allowed_per_page(n as nat) => n as nat,
        _ => DEFAULT_PER_PAGE as nat,
    }
}

/// Position of the first thread of a 1-based page, capped at `usize::MAX`.
pub open spec fn page_offset(page: nat, per: nat) -> nat {
    let o = (page - 1) * per;
    if o > usize::MAX {
        usize::MAX as nat
    } else {
        o as nat
    }
}

/// Resolves the requested page and page size: the page is at least 1, the size
/// one of 10, 25 or 50 (10 otherwise). Returns (page, per_page, offset).
pub fn page_params(page: Option<usize>, per_page: Option<usize>) -> (r: (usize, usize, usize))
    ensures
        r.0 == page_of(page),
        r.1 == per_page_of(per_page),
        r.2 == page_offset(r.0 as nat, r.1 as nat),
{
    let p: usize = match page {
        Some(p) if p >= 1 => p,
        _ => 1,
    };
    let per: usize = match per_page {
        Some(n) if n == 10 || n == 25 || n == 50 => n,
        _ => DEFAULT_PER_PAGE,
    };
    let before: usize = p - 1;
    let offset: usize = if before > usize::MAX / per {
        proof {
            assert(before * per > usize::MAX) by (nonlinear_arith)
                requires
                    before > usize::MAX / per,
                    per > 0,
            ;
        }
        usize::MAX
    } else {
        proof {
            assert(before * per <= usize::MAX) by (nonlinear_arith)
                requires
                    before <= usize::MAX / per,
                    per > 0,
            ;
        }
        before * per
    };
    (p, per, offset)
}

/// Number of pages for `total` threads at `per_page` a page.
pub fn total_pages(total: usize, per_page: usize) -> (r: usize)
    requires
        per_page > 0,
    ensures
        r == page_count(total as nat, per_page as nat),
{
    if total == 0 {
        1
    } else if total % per_page == 0 {
        total / per_page
    } else {
        proof {
            assert(total / per_page < total) by (nonlinear_arith)
                requires
                    total > 0,
                    per_page > 1,
            ;
        }
        total / per_page + 1
    }
}

} // verus!
