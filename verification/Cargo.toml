[package]
name = "sandbox_engine"
version = "0.1.0"
edition = "2021"
publish = false

[dependencies]
axum = "*"
serde = { version = "*", features = ["derive"] }
toml = "*"
utoipa = "*"
