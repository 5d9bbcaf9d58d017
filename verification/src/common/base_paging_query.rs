//! The query parameters of a paged listing.

use vstd::prelude::*;

verus! {

/// `?page=..&pageSize=..&search=..`: every parameter may be absent.
#[derive(Debug, Clone, PartialEq, Eq)]
pub struct BasePagingQuery {
    pub page: Option<u64>,
    pub page_size: Option<u64>,
    pub search: Option<String>,
}

} // verus!
