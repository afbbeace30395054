[package]
name = "generic_crud"
version = "0.1.0"
edition = "2021"
publish = false

[dependencies]
heck = "0.4"
async-trait = "0.1"
dotenvy = "0.15"
rocket = { version = "0.5", features = ["json"] }
sea-orm = { version = "1", default-features = false, features = ["macros", "sqlx-postgres", "runtime-tokio-rustls"] }
sea-orm-migration = { version = "1", default-features = false, features = ["sqlx-postgres", "runtime-tokio-rustls"] }
sea-orm-rocket = "0.5"
serde = { version = "1", features = ["derive"] }
