[package]
name = "salons"
version = "0.1.0"
edition = "2021"
publish = false

[dependencies]
chrono = { version = "0.4", default-features = false, features = ["serde"] }
rocket = { version = "0.5", features = ["json"] }
serde = { version = "1", features = ["derive"] }
shuttle-rocket = "0.57"
shuttle-runtime = { version = "0.57", default-features = false }
shuttle-shared-db = { version = "0.57", features = ["postgres", "sqlx"] }
sqlx = { version = "0.8", default-features = false, features = ["postgres", "runtime-tokio", "chrono"] }
