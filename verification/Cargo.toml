[package]
name = "axum_error"
version = "0.2.0"
edition = "2021"
publish = false

[dependencies]
axum = { version = "*", default-features = false }
eyre = "0.6"

[dev-dependencies]
futures-executor = "0.3"
