//! Types shared by the handlers.

pub mod base_paging_query;
