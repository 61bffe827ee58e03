[package]
name = "noverterm"
version = "0.1.0"
edition = "2021"
publish = false

[dependencies]
uuid = { version = "1", features = ["v4"] }
chrono = "0.4"
serde = { version = "1", features = ["derive"] }
thiserror = "1"
dirs = "*"
sqlx = { version = "0.8", default-features = false, features = ["runtime-tokio", "sqlite", "migrate", "macros"] }
