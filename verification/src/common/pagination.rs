//! The window of a listing: which page, how many items on it, and how many
//! items come before it.

use vstd::prelude::*;

verus! {

/// The page that is shown where none is asked for.
pub const DEFAULT_PAGE: i32 = 1;

/// The number of items on a page where none is asked for.
pub const DEFAULT_PER_PAGE: i32 = 20;

/// The largest number of items on a page.
pub const MAX_PER_PAGE: i32 = 100;

/// The window of a listing.
#[derive(Debug, Clone, Copy, PartialEq, Eq, Structural)]
pub struct PageWindow {
    /// The page, counted from 1.
    pub page: i32,
    /// The number of items on a page.
    pub per_page: i32,
    /// The number of items before the page.
    pub offset: i32,
}

/// The page that a request means: the one it names, or the first, and never
/// one before the first.
pub open spec fn page_of(page: Option<i32>) -> i32 {
    let asked = match page {
        Some(p) => p,
        None => DEFAULT_PAGE,
    };
    if asked < 1 {
        1
    } else {
        asked
    }
}

/// The number of items on a page that a request means: the number it names,
/// or the default, held between 1 and the maximum.
pub open spec fn per_page_of(per_page: Option<i32>) -> i32 {
    let asked = match per_page {
        Some(n) => n,
        None => DEFAULT_PER_PAGE,
    };
    if asked < 1 {
        1
    } else if asked > MAX_PER_PAGE {
        MAX_PER_PAGE
    } else {
        asked
    }
}

/// The number of items before the page that a request means.
pub open spec fn offset_of(page: Option<i32>, per_page: Option<i32>) -> int {
    (page_of(page) - 1) * per_page_of(per_page)
}

/// Whether the window that a request means can be stated: whether the number
/// of items before its page fits.
pub fn window_fits(page: Option<i32>, per_page: Option<i32>) -> (fits: bool)
    ensures
        fits == (offset_of(page, per_page) <= i32::MAX),
{
    let p: i64 = match page {
        Some(p) => if p < 1 {
            1
        } else {
            p as i64
        },
        None => 1,
    };
    let n: i64 = match per_page {
        Some(n) => if n < 1 {
            1
        } else if n > MAX_PER_PAGE {
            MAX_PER_PAGE as i64
        } else {
            n as i64
        },
        None => DEFAULT_PER_PAGE as i64,
    };
    assert(0 <= (p - 1) * n <= 0x7fff_ffff * 100) by (nonlinear_arith)
        requires
            1 <= p <= 0x7fff_ffff,
            1 <= n <= 100,
    ;
    (p - 1) * n <= i32::MAX as i64
}

/// The window that a request means.
pub fn page_window(page: Option<i32>, per_page: Option<i32>) -> (window: PageWindow)
    requires
        offset_of(page, per_page) <= i32::MAX,
    ensures
        window.page == page_of(page),
        window.per_page == per_page_of(per_page),
        window.offset == offset_of(page, per_page),
{
    let p: i32 = match page {
        Some(p) => if p < 1 {
            1
        } else {
            p
        },
        None => DEFAULT_PAGE,
    };
    let n: i32 = match per_page {
        Some(n) => if n < 1 {
            1
        } else if n > MAX_PER_PAGE {
            MAX_PER_PAGE
        } else {
            n
        },
        None => DEFAULT_PER_PAGE,
    };
    assert(0 <= (p - 1) * n) by (nonlinear_arith)
        requires
            1 <= p,
            1 <= n,
    ;
    PageWindow { page: p, per_page: n, offset: (p - 1) * n }
}

} // verus!
