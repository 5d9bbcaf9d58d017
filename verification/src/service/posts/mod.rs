//! `/api/v1/post`: listing, detail and seeding of posts.

pub mod controller;
