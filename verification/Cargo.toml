[package]
name = "sde_types"
version = "0.1.0"
edition = "2021"
publish = false

[dependencies]
flate2 = "1"
serde = { version = "1", features = ["derive"] }
serde_json = "1"
serde_yaml = "0.9"
zip = { version = "0.6", default-features = false, features = ["deflate"] }
