[package]
name = "loco_auth"
version = "0.1.0"
edition = "2021"
publish = false

[dependencies]
axum = "=0.8.9"
axum-extra = { version = "=0.12.6", features = ["cookie"] }
jsonwebtoken = { version = "=11.1.0", features = ["rust_crypto"] }
serde = "*"
serde_json = "*"
tera = "*"
tracing = "*"
