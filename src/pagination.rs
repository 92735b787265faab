//! Page numbering of a listing from its page size, offset and row count.
use vstd::prelude::*;
use crate::error::AppError;

verus! {

/// Where a page stands among all pages of a listing.
#[derive(Debug, Clone, Copy, PartialEq, Eq)]
pub struct PageInfo {
    pub current_page: i64,
    pub total_pages: i64,
}

/// Smallest number of pages of `size` rows that hold `count` rows.
pub open spec fn ceil_div(count: int, size: int) -> int {
    if count % size == 0 {
        count / size
    } else {
        count / size + 1
    }
}

/// The 1-based page that a listing starting at row `offset` shows.
pub open spec fn page_of(offset: int, limit: int) -> int {
    offset / limit + 1
}

/// Page numbering for a listing of `limit` rows from row `offset`, out of
/// `total_count` rows in all.
pub fn page_numbers(limit: i64, offset: i64, total_count: i64) -> (r: Result<PageInfo, AppError>)
    requires
        total_count >= 0,
    ensures
        limit <= 0 <==> r == Err::<PageInfo, AppError>(AppError::InvalidLimit),
        limit > 0 && (offset < 0 || offset / limit == i64::MAX) <==> r == Err::<PageInfo, AppError>(
            AppError::InvalidOffset,
        ),
        r is Ok <==> limit > 0 && offset >= 0 && offset / limit < i64::MAX,
        r matches Ok(p) ==> p.current_page == page_of(offset as int, limit as int)
            && p.total_pages == ceil_div(total_count as int, limit as int),
{
    if limit <= 0 {
        return Err(AppError::InvalidLimit);
    }
    if offset < 0 {
        return Err(AppError::InvalidOffset);
    }
    let skipped = offset / limit;
    if skipped == i64::MAX {
        return Err(AppError::InvalidOffset);
    }
    let full = total_count / limit;
    let total_pages = if total_count % limit == 0 {
        full
    } else {
        assert(full < i64::MAX) by (nonlinear_arith)
            requires
                full == total_count / limit,
                limit >= 1,
                total_count >= 0,
                total_count <= i64::MAX,
                total_count % limit != 0,
        {
            assert(full <= total_count);
        }
        full + 1
    };
    Ok(PageInfo { current_page: skipped + 1, total_pages })
}

} // verus!
