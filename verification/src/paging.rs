//! Pagination arithmetic for the listing handlers, in plain integers: the
//! page count is the integer ceiling of items over page size, with no
//! floating-point division anywhere.

use vstd::prelude::*;

use vstd::arithmetic::div_mod::lemma_fundamental_div_mod;

verus! {

/// How many pages `total_items` rows fill at `limit` rows per page: the
/// least page count whose capacity covers all rows; one page when no limit
/// is set.
pub fn total_pages(total_items: u64, limit: u64) -> (r: u64)
    ensures
        limit == 0 ==> r == 1,
        limit > 0 ==> r * limit >= total_items,
        limit > 0 && total_items > 0 ==> (r - 1) * limit < total_items,
        limit > 0 && total_items == 0 ==> r == 0,
{
    if limit == 0 {
        return 1;
    }
    let q = total_items / limit;
    let rem = total_items % limit;
    proof {
        lemma_fundamental_div_mod(total_items as int, limit as int);
        assert(total_items == limit * q + rem);
        if rem == 0 {
            assert(q * limit >= total_items && (total_items > 0 ==> (q - 1) * limit
                < total_items)) by (nonlinear_arith)
                requires
                    total_items == limit * q,
                    limit > 0,
            ;
        } else {
            assert(q < q + 1 && (q + 1) * limit >= total_items && q * limit < total_items)
                by (nonlinear_arith)
                requires
                    total_items == limit * q + rem,
                    limit > 0,
                    0 < rem < limit,
            ;
            assert(q < total_items) by (nonlinear_arith)
                requires
                    (q as int) * (limit as int) < total_items,
                    limit >= 1,
                    q >= 0,
            ;
        }
    }
    if rem == 0 {
        q
    } else {
        q + 1
    }
}

/// The row offset of page `page` (first page is 1) at `limit` rows per
/// page, saturating at the ends instead of overflowing or underflowing.
pub fn page_offset(page: u64, limit: u64) -> (r: u64)
    ensures
        r == if page == 0 {
            0int
        } else if (page - 1) * limit <= u64::MAX {
            (page - 1) * limit
        } else {
            u64::MAX as int
        },
{
    let base = if page == 0 {
        0
    } else {
        page - 1
    };
    match base.checked_mul(limit) {
        Some(v) => v,
        None => u64::MAX,
    }
}

} // verus!
