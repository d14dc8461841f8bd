//! Listings of products, page by page.

use crate::models::produto::{QueryParams, QueryParamsWithName};
use vstd::prelude::*;
use vstd::string::*;

verus! {

/// The page shown where none is asked for.
pub const DEFAULT_PAGE: u32 = 1;

/// The number of products on a page where none is asked for.
pub const DEFAULT_PAGE_SIZE: u32 = 20;

/// The largest number of products on a page.
pub const MAX_PAGE_SIZE: u32 = 100;

/// The rows of a listing that make up a page.
#[derive(Clone, Copy, Debug, PartialEq, Eq, Structural)]
pub struct PageWindow {
    pub limit: i64,
    pub offset: i64,
}

/// The number of rows on a page: what is asked for, twenty where nothing is,
/// a hundred at most.
pub open spec fn page_limit(page_size: Option<u32>) -> int {
    let asked = match page_size {
        Some(size) => size as int,
        None => DEFAULT_PAGE_SIZE as int,
    };
    if asked > MAX_PAGE_SIZE {
        MAX_PAGE_SIZE as int
    } else {
        asked
    }
}

/// The number of rows before a page: pages are counted from one, and each
/// page before this one is full. Page zero is read as page one.
pub open spec fn page_offset(page: Option<u32>, page_size: Option<u32>) -> int {
    let number = match page {
        Some(p) => p as int,
        None => DEFAULT_PAGE as int,
    };
    if number <= 1 {
        0
    } else {
        (number - 1) * page_limit(page_size)
    }
}

/// The listings of products.
pub struct ProdutoService;

impl ProdutoService {
    /// The rows of the page that `page` and `page_size` ask for.
    pub fn window(page: Option<u32>, page_size: Option<u32>) -> (window: PageWindow)
        ensures
            window.limit == page_limit(page_size),
            window.offset == page_offset(page, page_size),
    {
        let asked: u32 = match page_size {
            Some(size) => size,
            None => DEFAULT_PAGE_SIZE,
        };
        let limit: i64 = if asked > MAX_PAGE_SIZE {
            MAX_PAGE_SIZE as i64
        } else {
            asked as i64
        };
        let number: u32 = match page {
            Some(p) => p,
            None => DEFAULT_PAGE,
        };
        let offset: i64 = if number <= 1 {
            0
        } else {
            let before: i64 = (number - 1) as i64;
            assert(0 <= before * limit <= 0x1_0000_0000 * 100) by (nonlinear_arith)
                requires
                    0 <= before <= 0x1_0000_0000,
                    0 <= limit <= 100,
            ;
            before * limit
        };
        PageWindow { limit, offset }
    }

    /// The rows of the page that `params` asks for.
    pub fn page_window(params: &QueryParams) -> (window: PageWindow)
        ensures
            window.limit == page_limit(params.page_size),
            window.offset == page_offset(params.page, params.page_size),
    {
        Self::window(params.page, params.page_size)
    }

    /// The pattern that matches the names holding the name that `params`
    /// asks for, with the rows of the page to show; `None` where `params`
    /// asks for no name.
    pub fn name_search(params: &QueryParamsWithName) -> (search: Option<(String, PageWindow)>)
        ensures
            match search {
                Some((pattern, window)) => {
                    &&& params.name matches Some(name)
                    &&& pattern@ == "%"@ + name@ + "%"@
                    &&& window.limit == page_limit(params.page_size)
                    &&& window.offset == page_offset(params.page, params.page_size)
                },
                None => params.name is None,
            },
    {
        match &params.name {
            None => None,
            Some(name) => {
                let mut pattern = String::from_str("%");
                pattern.append(name.as_str());
                pattern.append("%");
                Some((pattern, Self::window(params.page, params.page_size)))
            },
        }
    }
}

} // verus!
