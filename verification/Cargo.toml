[package]
name = "alloy-compat"
version = "0.1.0"
edition = "2021"
publish = false

[dependencies]
alloy-primitives = { version = "0.8", default-features = false, features = ["std", "serde"] }
ethereum-types = "0.14"

[dev-dependencies]
serde_json = "1"
