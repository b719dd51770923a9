//! A reduced news-feed view of the same data model.

use vstd::prelude::*;

verus! {

/// A news item: where it points and what it is called.
pub struct NewsInfo {
    pub url: String,
    pub title: String,
}

/// Options of a news-feed search request.
#[derive(Clone, Copy, Debug)]
pub struct AdvanceSearchOptions {
    pub sort_by: SearchSortBy,
}

/// The news-feed result is sorted by ...
#[derive(Clone, Copy, Debug, PartialEq, Eq, Structural)]
pub enum SearchSortBy {
    Time,
    Hot,
}

impl SearchSortBy {
    /// Parse the request discriminant: `0` is `Time`, `1` is `Hot`;
    /// anything else is a validation error.
    pub fn try_from(discriminant: usize) -> (r: Result<SearchSortBy, String>)
        ensures
            discriminant == 0 ==> r == Ok::<SearchSortBy, String>(SearchSortBy::Time),
            discriminant == 1 ==> r == Ok::<SearchSortBy, String>(SearchSortBy::Hot),
            r is Err <==> discriminant >= 2,
    {
        match discriminant {
            0 => Ok(SearchSortBy::Time),
            1 => Ok(SearchSortBy::Hot),
            _ => Err(String::from_str("Unknown discriminant.")),
        }
    }
}

} // verus!
