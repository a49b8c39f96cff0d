use vstd::prelude::*;
use crate::text::join2;

verus! {

/// Page shown when a search names none.
pub const DEFAULT_PAGE: i32 = 1;

/// Rows per page when a search names no limit.
pub const DEFAULT_LIMIT: i32 = 20;

/// Rows to skip before page `page` of `limit` rows (pages count from one).
pub fn page_offset(page: i32, limit: i32) -> (r: i64)
    ensures
        r == (page - 1) * limit,
{
    assert(-2147483649 <= page - 1 <= 2147483646);
    assert((page as int - 1) * (limit as int) <= 2147483649 * 2147483648) by (nonlinear_arith)
        requires
            -2147483649 <= page - 1 <= 2147483646,
            -2147483648 <= limit <= 2147483647,
    ;
    assert((page as int - 1) * (limit as int) >= -2147483649 * 2147483647) by (nonlinear_arith)
        requires
            -2147483649 <= page - 1 <= 2147483646,
            -2147483648 <= limit <= 2147483647,
    ;
    (page as i64 - 1) * limit as i64
}

/// The least integer not below `a / b`, for `b > 0`.
pub open spec fn ceil_div(a: int, b: int) -> int
    recommends
        b > 0,
{
    if a % b == 0 {
        a / b
    } else {
        a / b + 1
    }
}

/// Pages needed for `total` rows at `limit` rows a page. Without a
/// positive limit, or for a negative total, there is no page count: `None`.
pub fn page_count(total: i32, limit: i32) -> (r: Option<i32>)
    ensures
        limit > 0 && total >= 0 ==> r == Some(ceil_div(total as int, limit as int) as i32),
        limit <= 0 || total < 0 ==> r is None,
{
    if limit <= 0 || total < 0 {
        return None;
    }
    let q = total / limit;
    assert(q <= total) by (nonlinear_arith)
        requires
            q == total as int / limit as int,
            total >= 0,
            limit > 0,
    ;
    let rem = total % limit;
    if rem == 0 {
        Some(q)
    } else {
        assert(q < total) by (nonlinear_arith)
            requires
                q == total as int / limit as int,
                rem == total as int % limit as int,
                rem != 0,
                total >= 0,
                limit > 0,
        ;
        Some(q + 1)
    }
}

/// The `LIKE` pattern that matches text holding `term`.
pub fn search_pattern(term: &str) -> (r: String)
    ensures
        r@ == "%"@ + term@ + "%"@,
{
    join2("%", term).concat("%")
}

/// Which bin query a search runs: with the lot's status beside each bin
/// when lot, item and location are all given, and filtered when a search
/// term is given.
#[derive(Debug, Clone, Copy, PartialEq, Eq, Structural)]
pub struct BinQueryShape {
    pub with_lot_status: bool,
    pub filtered: bool,
}

/// The shape of a bin search.
pub fn bin_query_shape(query: Option<&str>, lot_no: Option<&str>, item_key: Option<&str>, location: Option<&str>) -> (r:
    BinQueryShape)
    ensures
        r.with_lot_status == (lot_no is Some && item_key is Some && location is Some),
        r.filtered == query is Some,
{
    BinQueryShape {
        with_lot_status: lot_no.is_some() && item_key.is_some() && location.is_some(),
        filtered: query.is_some(),
    }
}

} // verus!
