[package]
name = "posts_service"
version = "0.1.0"
edition = "2021"
publish = false

[dependencies]
fake = "*"
actix = "*"
actix-web = { version = "4", default-features = false, features = ["macros"] }
actix-redis = "*"
actix-files = "*"
sea-orm = { version = "*", default-features = false, features = ["macros"] }
sea-orm-migration = { version = "*", default-features = false }
async-trait = "*"
serde = { version = "1", features = ["derive"] }
serde_json = "1"
tera = { version = "1", default-features = false }
dotenv = "*"
listenfd = "*"
tracing-subscriber = "*"
