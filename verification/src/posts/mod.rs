//! The site's JSON listing of posts.

pub mod controller;
