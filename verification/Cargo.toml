[package]
name = "rust_crud"
version = "0.1.0"
edition = "2021"
publish = false

[dependencies]
chrono = "*"
axum = "*"
tokio = { version = "*", features = ["macros", "rt-multi-thread", "net"] }
serde = { version = "*", features = ["derive"] }
serde_json = "*"
sqlx = { version = "*", features = ["postgres", "runtime-tokio", "chrono"] }
dotenvy = "*"
