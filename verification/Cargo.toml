[package]
name = "axum-connect"
version = "0.1.0"
edition = "2021"
publish = false

[dependencies]
axum = "0.6"
futures = "0.3"
prost = "0.12"
serde = { version = "1", features = ["derive"] }
serde_json = "1"
