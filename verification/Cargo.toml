[package]
name = "carteira"
version = "0.1.0"
edition = "2021"
publish = false

[dependencies]
password-auth = "1"
axum = "0.8"
axum-extra = { version = "0.10", features = ["cookie"] }
tokio = { version = "1", features = ["rt-multi-thread", "macros"] }
sqlx = { version = "0.8", default-features = false, features = ["postgres", "runtime-tokio"] }
askama = "*"
jwt-simple = { version = "0.12", default-features = false, features = ["pure-rust"] }
serde = { version = "1", features = ["derive"] }
thiserror = "*"
tracing = "0.1"
