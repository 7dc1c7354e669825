//! Pagination: what a listing request asks for, the window that it is given,
//! and the page that a listing answers with.

use vstd::prelude::*;

verus! {

/// The greatest number of posts on one page.
pub const MAX_PER_PAGE: i64 = 100;

/// The pagination parameters of a listing request. A parameter that the
/// request leaves out counts as zero.
#[derive(Clone, Copy, Debug, PartialEq, Eq)]
pub struct PaginationParams {
    pub page: Option<i64>,
    pub per_page: Option<i64>,
}

/// The page that a request is given: the one it asks for, or the first one if
/// it asks for none or for one before the first.
pub open spec fn effective_page(page: Option<i64>) -> int {
    match page {
        Some(number) => if number < 1 {
            1
        } else {
            number as int
        },
        None => 1,
    }
}

/// The page size that a request is given: the one it asks for, brought into
/// the range from 1 to `MAX_PER_PAGE`.
pub open spec fn effective_per_page(per_page: Option<i64>) -> int {
    match per_page {
        Some(size) => if size < 1 {
            1
        } else if size > MAX_PER_PAGE {
            MAX_PER_PAGE as int
        } else {
            size as int
        },
        None => 1,
    }
}

/// The number of posts that come before the first post of a page.
pub open spec fn offset_of(page: int, per_page: int) -> int {
    (page - 1) * per_page
}

/// The part of `items` that is on page `page` when a page holds `per_page`
/// items: at most `per_page` items from position `offset_of(page, per_page)`
/// on, and none where that position is beyond the end.
pub open spec fn page_of<T>(items: Seq<T>, page: int, per_page: int) -> Seq<T>
    recommends
        1 <= page,
        1 <= per_page,
{
    let offset = offset_of(page, per_page);
    let start = if offset < items.len() {
        offset
    } else {
        items.len() as int
    };
    let end = if start + per_page < items.len() {
        start + per_page
    } else {
        items.len() as int
    };
    items.subrange(start, end)
}

/// A page number and a page size that a listing can be made with.
pub struct WindowView {
    pub page: int,
    pub per_page: int,
}

impl WindowView {
    /// The page is the first or a later one, and the page size is in range.
    pub open spec fn valid(self) -> bool {
        1 <= self.page && 1 <= self.per_page <= MAX_PER_PAGE
    }

    /// The number of posts that come before the window.
    pub open spec fn offset(self) -> int {
        offset_of(self.page, self.per_page)
    }
}

/// The window of a listing: a page number that is at least 1 and a page size
/// between 1 and `MAX_PER_PAGE`.
#[derive(Clone, Copy, Debug, PartialEq, Eq)]
pub struct Window {
    page: i64,
    per_page: i64,
}

impl View for Window {
    type V = WindowView;

    closed spec fn view(&self) -> WindowView {
        WindowView { page: self.page as int, per_page: self.per_page as int }
    }
}

impl Window {
    #[verifier::type_invariant]
    spec fn in_range(self) -> bool {
        1 <= self.page && 1 <= self.per_page <= MAX_PER_PAGE
    }

    /// The page number.
    pub fn page(&self) -> (page: i64)
        ensures
            page == self@.page,
            self@.valid(),
    {
        proof {
            use_type_invariant(self);
        }
        self.page
    }

    /// The page size.
    pub fn per_page(&self) -> (per_page: i64)
        ensures
            per_page == self@.per_page,
            self@.valid(),
    {
        proof {
            use_type_invariant(self);
        }
        self.per_page
    }

    /// The greatest number of posts in the window: the page size.
    pub fn limit(&self) -> (limit: i64)
        ensures
            limit == self@.per_page,
            self@.valid(),
    {
        self.per_page()
    }

    /// The number of posts that come before the window, or `i64::MAX` where
    /// that number is greater.
    pub fn offset(&self) -> (offset: i64)
        ensures
            self@.valid(),
            self@.offset() <= i64::MAX ==> offset == self@.offset(),
            self@.offset() > i64::MAX ==> offset == i64::MAX,
    {
        proof {
            use_type_invariant(self);
        }
        match (self.page - 1).checked_mul(self.per_page) {
            Some(offset) => offset,
            None => i64::MAX,
        }
    }
}

impl PaginationParams {
    /// The window that the request is given: its page, made at least 1, and
    /// its page size, brought into the range from 1 to `MAX_PER_PAGE`.
    pub fn window(&self) -> (window: Window)
        ensures
            window@.valid(),
            window@.page == effective_page(self.page),
            window@.per_page == effective_per_page(self.per_page),
    {
        let page: i64 = match self.page {
            Some(number) => if number < 1 {
                1
            } else {
                number
            },
            None => 1,
        };
        let per_page: i64 = match self.per_page {
            Some(size) => if size < 1 {
                1
            } else if size > MAX_PER_PAGE {
                MAX_PER_PAGE
            } else {
                size
            },
            None => 1,
        };
        Window { page, per_page }
    }
}

/// One page of a listing, with the window it was made with and the number of
/// items in the whole listing.
#[derive(Debug, PartialEq, Eq)]
pub struct PaginatedResponse<T> {
    pub data: Vec<T>,
    pub page: i64,
    pub per_page: i64,
    pub total: i64,
}

} // verus!
