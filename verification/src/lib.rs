//! Request handling of a small posts service: pagination, cache keys and the
//! decisions each HTTP handler takes between its calls to the cache, the
//! database and the template engine.

pub mod decimal;
pub mod post;
pub mod common;
pub mod cache;
pub mod protocol;
pub mod paging;
pub mod posts;
pub mod service;
pub mod root;
