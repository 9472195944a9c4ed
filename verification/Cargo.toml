[package]
name = "authz_core"
version = "0.1.0"
edition = "2021"
publish = false

[dependencies]
uuid = { version = "*", features = ["v4"] }
tokio = { version = "*", features = ["sync", "rt", "macros", "time"] }
serde = { version = "*", features = ["derive"] }
serde_json = "*"
anyhow = "*"
