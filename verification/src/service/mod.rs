//! The JSON API under `/api/v1`.

pub mod posts;
