//! Values that generated repositories hand back.
use vstd::prelude::*;

verus! {

/// One page of records with its paging metadata. The page number is
/// 1-indexed by convention and is carried through as given.
#[derive(Clone, Debug, PartialEq, Eq)]
pub struct Paged<T> {
    /// The records of this page.
    pub items: Vec<T>,
    /// The number of records matching the query, over all pages.
    pub total_count: i64,
    /// The page number.
    pub page: i64,
    /// The number of records per page.
    pub per_page: i64,
}

impl<T> Paged<T> {
    pub fn new(items: Vec<T>, total_count: i64, page: i64, per_page: i64) -> (r: Paged<T>)
        ensures
            r.items@ == items@,
            r.total_count == total_count,
            r.page == page,
            r.per_page == per_page,
    {
        Paged { items, total_count, page, per_page }
    }
}

/// A row holding a single count, as a counting query returns it.
#[derive(Clone, Copy, Debug, PartialEq, Eq, Structural)]
pub struct ViewCount {
    pub count: i64,
}

} // verus!
