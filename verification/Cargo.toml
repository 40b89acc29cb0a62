[package]
name = "creditra-credit"
version = "0.1.0"
edition = "2021"
publish = false

[dependencies]
soroban-sdk = "29"
serde = { version = "=1.0.229", features = ["derive"] }
serde_json = "=1.0.154"

[dev-dependencies]
soroban-sdk = { version = "29", features = ["testutils"] }
