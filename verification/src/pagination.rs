//! Pagination query parameters and the offset/limit arithmetic.

use vstd::prelude::*;

verus! {

/// Page selection as it arrives on a list request: a 1-based page number and
/// a page size.
pub struct PaginationQuery {
    /// Page number (1-based).
    pub page: u64,
    /// Items per page.
    pub per_page: u64,
}

/// The page used when a request names none.
pub fn default_page() -> (r: u64)
    ensures
        r == 1,
{
    1
}

/// The page size used when a request names none.
pub fn default_per_page() -> (r: u64)
    ensures
        r == 10,
{
    10
}

impl Default for PaginationQuery {
    fn default() -> (r: Self)
        ensures
            r.page == 1,
            r.per_page == 10,
    {
        PaginationQuery { page: default_page(), per_page: default_per_page() }
    }
}

impl PaginationQuery {
    /// Index of the first row of the requested page: `(page - 1) * per_page`,
    /// with page 0 clamped to the first row rather than underflowing.
    pub open spec fn spec_offset(&self) -> int {
        if self.page <= 1 {
            0
        } else {
            (self.page - 1) * self.per_page
        }
    }

    /// Calculate the offset for a row-store query.
    pub fn offset(&self) -> (r: u64)
        requires
            self.spec_offset() <= u64::MAX,
        ensures
            r == self.spec_offset(),
    {
        let base: u64 = if self.page >= 1 {
            self.page - 1
        } else {
            0
        };
        base * self.per_page
    }

    /// The row limit of the page, which is `per_page` itself.
    pub fn limit(&self) -> (r: u64)
        ensures
            r == self.per_page,
    {
        self.per_page
    }
}

} // verus!
