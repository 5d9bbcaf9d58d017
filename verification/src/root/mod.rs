//! The HTML site: listing, creation, editing and deletion of posts.

pub mod controller;
