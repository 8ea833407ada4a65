use vstd::prelude::*;

use crate::account::{Account, FilterOptions};
use crate::store::AccountStore;

verus! {

/// The page size used when the request names none.
pub const DEFAULT_LIMIT: u32 = 10;

/// The effective page size: the requested one, or 10 when absent.
pub open spec fn effective_limit(limit: Option<u32>) -> int {
    match limit {
        Some(l) => l as int,
        None => DEFAULT_LIMIT as int,
    }
}

/// The effective 1-based page number: the requested one clamped up to 1, or
/// 1 when absent.
pub open spec fn effective_page(page: Option<u32>) -> int {
    match page {
        Some(p) => if p == 0 {
            1
        } else {
            p as int
        },
        None => 1,
    }
}

/// Normalize the pagination parameters: page size defaults to 10, the
/// 1-based page number defaults to 1 (and 0 is clamped to 1), and the row
/// offset is `(page - 1) * limit`.
pub fn normalize_pagination(opts: &FilterOptions) -> (r: (u32, u64))
    ensures
        r.0 == effective_limit(opts.limit),
        r.1 == (effective_page(opts.page) - 1) * effective_limit(opts.limit),
{
    let limit: u32 = match opts.limit {
        Some(l) => l,
        None => DEFAULT_LIMIT,
    };
    let page: u32 = match opts.page {
        Some(p) => if p == 0 {
            1
        } else {
            p
        },
        None => 1,
    };
    proof {
        assert((page - 1) * (limit as int) < 0x10000000000000000 && (page - 1) * (limit as int)
            >= 0) by (nonlinear_arith)
            requires
                0 < page < 0x100000000,
                0 <= limit < 0x100000000,
        ;
    }
    let offset: u64 = (page as u64 - 1) * (limit as u64);
    (limit, offset)
}

/// One page of the listing, as the service serves it: pagination defaults
/// and clamping applied, then the rows `[(page-1)*limit, page*limit)` of the
/// table in ascending identifier order, clipped to the table's length.
pub fn list_page(store: &AccountStore, opts: &FilterOptions) -> (r: Vec<Account>)
    requires
        store.wf(),
    ensures
        ({
            let limit = effective_limit(opts.limit);
            let first = (effective_page(opts.page) - 1) * limit;
            let off = vstd::math::min(first, store@.len() as int);
            let end = vstd::math::min(first + limit, store@.len() as int);
            &&& r@.len() == end - off
            &&& forall|i: int| 0 <= i < r@.len() ==> #[trigger] r@[i]@ == store@[off + i]
        }),
        forall|i: int, j: int| 0 <= i < j < r@.len() ==> r@[i]@.id < r@[j]@.id,
{
    let (limit, offset) = normalize_pagination(opts);
    store.list(limit, offset)
}

} // verus!
