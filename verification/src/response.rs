//! The uniform response envelope: `{data, meta?}` around every successful
//! result, with pagination metadata on list results.

use vstd::prelude::*;

use vstd::arithmetic::div_mod::lemma_fundamental_div_mod;
use vstd::arithmetic::div_mod::lemma_mod_bound;

verus! {

/// The page count reported for `total` rows at `per_page` rows per page:
/// the quotient rounded up, and 0 for an empty collection.
pub open spec fn spec_total_pages(total: int, per_page: int) -> int
    recommends
        per_page >= 1,
{
    (total + per_page - 1) / per_page
}

/// Pagination: the page count is the ceiling of `total / per_page`. For
/// every `total >= 0` and `per_page >= 1`, the pages cover all rows, the
/// last page is not empty, an empty collection has no pages, and an even
/// division gives the exact quotient.
pub proof fn lemma_total_pages_is_ceiling(total: int, per_page: int)
    requires
        total >= 0,
        per_page >= 1,
    ensures
        per_page * spec_total_pages(total, per_page) >= total,
        per_page * spec_total_pages(total, per_page) < total + per_page,
        total == 0 ==> spec_total_pages(total, per_page) == 0,
        total % per_page == 0 ==> spec_total_pages(total, per_page) == total / per_page,
{
    let x = total + per_page - 1;
    let t = x / per_page;
    lemma_fundamental_div_mod(x, per_page);
    lemma_mod_bound(x, per_page);
    assert(per_page * t == x - x % per_page);
    if total == 0 {
        assert(x == per_page - 1);
        assert(per_page * t >= 0 && per_page * t < per_page);
        if t >= 1 {
            assert(per_page * t >= per_page * 1) by (nonlinear_arith)
                requires
                    per_page >= 1 && t >= 1,
            ;
        }
        if t < 0 {
            assert(per_page * t <= -per_page) by (nonlinear_arith)
                requires
                    per_page >= 1 && t <= -1,
            ;
        }
    }
    if total % per_page == 0 {
        let q = total / per_page;
        lemma_fundamental_div_mod(total, per_page);
        assert(total == per_page * q);
        assert(per_page * t >= per_page * q);
        assert(per_page * t < per_page * q + per_page);
        assert(t == q) by (nonlinear_arith)
            requires
                per_page >= 1 && per_page * t >= per_page * q && per_page * t < per_page * q
                    + per_page,
        ;
    }
}

/// Pagination metadata of a list response.
pub struct PaginationMeta {
    pub total: u64,
    pub page: u64,
    pub per_page: u64,
    pub total_pages: u64,
}

impl PaginationMeta {
    /// Builds the metadata block, computing the page count as the rounded-up
    /// quotient.
    pub fn new(total: u64, page: u64, per_page: u64) -> (r: Self)
        requires
            per_page >= 1,
            total + per_page <= u64::MAX,
        ensures
            r.total == total,
            r.page == page,
            r.per_page == per_page,
            r.total_pages == spec_total_pages(total as int, per_page as int),
    {
        let total_pages: u64 = (total + per_page - 1) / per_page;
        PaginationMeta { total, page, per_page, total_pages }
    }
}

/// The uniform response wrapper: a payload and an optional metadata block.
pub struct ApiResponse<T, M> {
    pub data: T,
    pub meta: Option<M>,
}

impl<T> ApiResponse<T, ()> {
    /// Wraps a payload with no metadata.
    pub fn data(data: T) -> (r: Self)
        ensures
            r.data == data,
            r.meta is None,
    {
        ApiResponse { data, meta: None }
    }
}

impl<T, M> ApiResponse<T, M> {
    /// Wraps a payload together with a metadata block.
    pub fn with_meta(data: T, meta: M) -> (r: Self)
        ensures
            r.data == data,
            r.meta == Some(meta),
    {
        ApiResponse { data, meta: Some(meta) }
    }
}

/// Builder of the common response forms.
pub struct ApiResponseBuilder;

impl ApiResponseBuilder {
    /// A single-item response: `{data}`.
    pub fn one<T>(data: T) -> (r: ApiResponse<T, ()>)
        ensures
            r.data == data,
            r.meta is None,
    {
        ApiResponse::data(data)
    }

    /// An unpaginated list response: `{data: [...]}`.
    pub fn list<T>(data: Vec<T>) -> (r: ApiResponse<Vec<T>, ()>)
        ensures
            r.data == data,
            r.meta is None,
    {
        ApiResponse::data(data)
    }

    /// A paginated list response: `{data: [...], meta: {...}}`.
    pub fn paginated<T>(data: Vec<T>, total: u64, page: u64, per_page: u64) -> (r: ApiResponse<
        Vec<T>,
        PaginationMeta,
    >)
        requires
            per_page >= 1,
            total + per_page <= u64::MAX,
        ensures
            r.data == data,
            r.meta matches Some(m) && m.total == total && m.page == page && m.per_page == per_page
                && m.total_pages == spec_total_pages(total as int, per_page as int),
    {
        ApiResponse::with_meta(data, PaginationMeta::new(total, page, per_page))
    }

    /// A creation response: the created status code with the payload.
    pub fn created<T>(data: T) -> (r: (u16, ApiResponse<T, ()>))
        ensures
            r.0 == 201,
            r.1.data == data,
            r.1.meta is None,
    {
        (201, ApiResponse::data(data))
    }

    /// A deletion response: the no-content status code and an empty body.
    pub fn no_content() -> (r: u16)
        ensures
            r == 204,
    {
        204
    }
}

} // verus!
