//! Pagination shared by every list endpoint.
//!
//! The caller sends a page number and a page size; the page size is clamped so
//! that no request can ask for an unbounded page, and the reply carries the
//! total so that page counts can be shown.

use crate::text::{
    is_white_space, lemma_trimmed_empty_iff_blank, lemma_trimmed_shape, text_option, trim, trimmed,
    trimmed_non_blank,
};
use vstd::prelude::*;

verus! {

/// Hard ceiling on rows per page, whatever the request asks.
pub const MAX_PER_PAGE: u32 = 100;

/// Page size when the request gives none.
pub const DEFAULT_PER_PAGE: u32 = 25;

/// The page number a request ends up with: 1-based, 1 when absent.
pub open spec fn effective_page(page: Option<u32>) -> u32 {
    match page {
        Some(p) => if p == 0 {
            1
        } else {
            p
        },
        None => 1,
    }
}

/// The page size a request ends up with: the default when absent, then
/// clamped to `1..=MAX_PER_PAGE`.
pub open spec fn effective_per_page(per_page: Option<u32>) -> u32 {
    let p = match per_page {
        Some(p) => p,
        None => DEFAULT_PER_PAGE,
    };
    if p < 1 {
        1
    } else if p > MAX_PER_PAGE {
        MAX_PER_PAGE
    } else {
        p
    }
}

/// The search term a request ends up with: trimmed, and absent when blank.
pub open spec fn effective_search(search: Option<Seq<char>>) -> Option<Seq<char>> {
    trimmed_non_blank(search)
}

/// A page size is kept exactly as asked whenever it lies within
/// `1..=MAX_PER_PAGE`; a larger one is cut to `MAX_PER_PAGE`, zero becomes 1,
/// and an absent one takes `DEFAULT_PER_PAGE`. Whatever is asked, the size
/// ends up within `1..=MAX_PER_PAGE`.
pub proof fn lemma_per_page_clamps_only_out_of_range(p: u32, asked: Option<u32>)
    ensures
        1 <= p <= MAX_PER_PAGE ==> effective_per_page(Some(p)) == p,
        p > MAX_PER_PAGE ==> effective_per_page(Some(p)) == MAX_PER_PAGE,
        p == 0 ==> effective_per_page(Some(p)) == 1,
        effective_per_page(None) == DEFAULT_PER_PAGE,
        1 <= effective_per_page(asked) <= MAX_PER_PAGE,
{
}

/// A search term is dropped only when it is blank: for every text `s`, the
/// term is absent exactly when `s` trimmed is empty, and otherwise it is `s`
/// trimmed, however short. No term at all stays no term.
pub proof fn lemma_search_dropped_only_when_blank(s: Seq<char>)
    ensures
        effective_search(Some(s)) is None <==> trimmed(s).len() == 0,
        trimmed(s).len() > 0 ==> effective_search(Some(s)) == Some(trimmed(s)),
        effective_search(None) is None,
        effective_search(Some(s)) is None <==> forall|k: int|
            0 <= k < s.len() ==> is_white_space(#[trigger] s[k]),
        effective_search(Some(s)) matches Some(t) ==> t.len() > 0 && !is_white_space(t[0])
            && !is_white_space(t.last()),
{
    lemma_trimmed_empty_iff_blank(s);
    lemma_trimmed_shape(s);
}

/// Number of pages needed for `total` rows at `per_page` (at least 1) rows a
/// page: the total divided by the page size, rounded up; none for no rows.
pub open spec fn page_count(total: i64, per_page: u32) -> int {
    if total <= 0 {
        0
    } else {
        (total - 1) / (per_page as int) + 1
    }
}

/// A sanitised pagination and filter request.
#[derive(Debug, Clone)]
pub struct PageRequest {
    /// 1-based page number.
    pub page: u32,
    /// Rows per page, clamped to `1..=MAX_PER_PAGE` by `new`.
    pub per_page: u32,
    pub search: Option<String>,
    pub active_only: bool,
}

impl PageRequest {
    /// Builds a sanitised request from raw arguments.
    pub fn new(
        page: Option<u32>,
        per_page: Option<u32>,
        search: Option<String>,
        active_only: Option<bool>,
    ) -> (r: Self)
        ensures
            r.page == effective_page(page),
            r.per_page == effective_per_page(per_page),
            text_option(r.search) == effective_search(text_option(search)),
            r.active_only == match active_only {
                Some(a) => a,
                None => false,
            },
    {
        let page = match page {
            Some(p) => if p == 0 {
                1
            } else {
                p
            },
            None => 1,
        };
        let raw = match per_page {
            Some(p) => p,
            None => DEFAULT_PER_PAGE,
        };
        let per_page = if raw < 1 {
            1
        } else if raw > MAX_PER_PAGE {
            MAX_PER_PAGE
        } else {
            raw
        };
        let search = match search {
            Some(s) => {
                let t = trim(s.as_str());
                if t.as_str().unicode_len() == 0 {
                    None
                } else {
                    Some(t)
                }
            },
            None => None,
        };
        let active_only = match active_only {
            Some(a) => a,
            None => false,
        };
        PageRequest { page, per_page, search, active_only }
    }

    /// SQL `OFFSET` of the current page: the rows on earlier pages. It fits
    /// an `i64` for every page of every request `new` builds.
    pub fn offset(&self) -> (r: i64)
        requires
            (self.page - 1) * self.per_page <= i64::MAX,
        ensures
            r == (self.page - 1) * self.per_page,
    {
        let page = self.page as i64;
        let per_page = self.per_page as i64;
        proof {
            assert((page - 1) * per_page >= -per_page) by (nonlinear_arith)
                requires
                    page >= 0,
                    per_page >= 0,
            ;
        }
        (page - 1) * per_page
    }

    /// SQL `LIMIT` of the current page.
    pub fn limit(&self) -> (r: i64)
        ensures
            r == self.per_page,
    {
        self.per_page as i64
    }
}

/// A page of results plus what the caller needs to show page controls.
#[derive(Debug)]
pub struct Page<T> {
    pub data: Vec<T>,
    pub page: u32,
    pub per_page: u32,
    pub total: i64,
    pub total_pages: u32,
}

impl<T> Page<T> {
    /// Wraps one page of rows with the totals for the request.
    pub fn new(data: Vec<T>, req: &PageRequest, total: i64) -> (r: Self)
        requires
            page_count(
                total,
                if req.per_page < 1 {
                    1u32
                } else {
                    req.per_page
                },
            ) <= u32::MAX,
        ensures
            r.data@ == data@,
            r.page == req.page,
            r.per_page == (if req.per_page < 1 {
                1u32
            } else {
                req.per_page
            }),
            r.total == total,
            r.total_pages == page_count(total, r.per_page),
    {
        let per_page = if req.per_page < 1 {
            1
        } else {
            req.per_page
        };
        let total_pages: u32 = if total <= 0 {
            0
        } else {
            ((total - 1) / (per_page as i64) + 1) as u32
        };
        Page { data, page: req.page, per_page, total, total_pages }
    }
}

/// A request built by `PageRequest::new` always has a page of at least 1, a
/// page size within `1..=MAX_PER_PAGE`, and either no search term or a
/// non-blank one with no white space at either end.
pub proof fn lemma_request_is_sanitised(
    page: Option<u32>,
    per_page: Option<u32>,
    search: Option<Seq<char>>,
)
    ensures
        effective_page(page) >= 1,
        1 <= effective_per_page(per_page) <= MAX_PER_PAGE,
        effective_search(search) matches Some(s) ==> s.len() > 0 && s == trimmed(s),
{
    if let Some(s) = search {
        crate::text::lemma_trimmed_idempotent(s);
    }
}

/// Consecutive pages tile the rows: page `p + 1` starts where page `p` ends.
pub proof fn lemma_pages_are_contiguous(page: u32, per_page: u32)
    requires
        page >= 1,
    ensures
        page * per_page == (page - 1) * per_page + per_page,
{
    assert(page * per_page == (page - 1) * per_page + per_page) by (nonlinear_arith);
}

/// For a positive row count, the page count is the smallest number of pages
/// that holds every row.
pub proof fn lemma_page_count_is_ceiling(total: i64, per_page: u32)
    requires
        0 < total,
        1 <= per_page,
    ensures
        page_count(total, per_page) * per_page >= total,
        (page_count(total, per_page) - 1) * per_page < total,
{
    let t = total as int;
    let p = per_page as int;
    let q = (t - 1) / p;
    assert(page_count(total, per_page) == q + 1);
    assert((q + 1) * p >= t && q * p < t) by (nonlinear_arith)
        requires
            q == (t - 1) / p,
            p >= 1,
            t > 0,
    ;
}

/// A request that `PageRequest::new` built can always be asked for its
/// offset: the offset of every page fits an `i64`.
pub proof fn lemma_offset_always_fits(page: Option<u32>, per_page: Option<u32>)
    ensures
        (effective_page(page) - 1) * effective_per_page(per_page) <= i64::MAX,
{
    let a = effective_page(page) - 1;
    let b = effective_per_page(per_page) as int;
    assert(a * b <= u32::MAX * 100) by (nonlinear_arith)
        requires
            0 <= a <= u32::MAX,
            0 <= b <= 100,
    ;
}

} // verus!
