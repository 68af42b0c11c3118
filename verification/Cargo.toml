[package]
name = "breezi"
version = "0.1.0"
edition = "2021"
publish = false

[dependencies]
regex = "*"
validator = "*"
chrono = "*"
serde = { version = "*", features = ["derive"] }
serde_json = "*"
tokio = { version = "*", features = ["rt-multi-thread", "macros", "net"] }
axum = "*"
sqlx = { version = "*", default-features = false, features = ["runtime-tokio", "sqlite"] }
uuid = { version = "*", features = ["v4"] }
