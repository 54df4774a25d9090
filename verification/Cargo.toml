[package]
name = "copilot_provider"
version = "0.1.0"
edition = "2021"
publish = false

[dependencies]
async-trait = "=0.1.92"
github-copilot-sdk = { version = "=1.0.28", default-features = false, features = ["local-runtime"] }
serde_json = { version = "=1.0.154", features = ["preserve_order"] }
tokio = { version = "=1.54.1", features = ["rt", "sync", "time", "macros"] }
uuid = { version = "=1.29.0", features = ["v4"] }
