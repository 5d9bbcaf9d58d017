//! `GET /post/paging`: pages are numbered from 1, and a failed cache lookup
//! panics.

use vstd::prelude::*;
use crate::cache::paging_key;
use crate::common::base_paging_query::BasePagingQuery;
use crate::paging::{PagingRun, DEFAULT_PAGE_SIZE};
use crate::protocol::Action;

verus! {

/// The search text of a query: empty when absent.
pub open spec fn search_of(query: BasePagingQuery) -> Seq<char> {
    match query.search {
        Some(s) => s@,
        None => Seq::empty(),
    }
}

/// Starts the listing of `query`: page 1 and 20 posts per page unless the
/// query says otherwise, posts containing the search text (all when absent).
pub fn get_posts(query: BasePagingQuery) -> (r: (PagingRun, Action))
    ensures
        r.0.page == (match query.page { Some(p) => p, None => 1 }),
        r.0.page_size == (match query.page_size { Some(s) => s, None => DEFAULT_PAGE_SIZE }),
        r.0.search@ == search_of(query),
        r.0.first_page == 1,
        r.0.lookup_faults_abort,
        r.0.wf(),
        r.0.phase is AwaitLookup,
        r.1 matches Action::CacheGet { key } && key@ == paging_key(r.0.page, r.0.page_size, r.0.search@),
{
    let page = match query.page {
        Some(p) => p,
        None => 1,
    };
    let page_size = match query.page_size {
        Some(s) => s,
        None => DEFAULT_PAGE_SIZE,
    };
    let search = match query.search {
        Some(s) => s,
        None => String::new(),
    };
    PagingRun::begin(page, page_size, search, 1, true)
}

} // verus!
