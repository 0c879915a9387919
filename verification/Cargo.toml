[package]
name = "canpi_config"
version = "0.1.0"
edition = "2021"
publish = false

[dependencies]
backitup = "*"
jsonschema = { version = "0.17", default-features = false }
rust-ini = "*"
schemars = "0.8"
serde = { version = "1", features = ["derive"] }
serde_json = "1"
thiserror = "1"
