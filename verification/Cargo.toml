[package]
name = "cryptomkt"
version = "0.1.0"
edition = "2021"
publish = false

[dependencies]
ring = "*"
hex = "*"
rand = "*"
chrono = "*"
serde = { version = "*", features = ["derive"] }
serde_json = "*"
serde_with = "*"
thiserror = "*"
derive_builder = "*"
log = "*"
futures = "*"
tokio = { version = "*", features = ["rt", "sync", "time", "macros", "net"] }
tokio-tungstenite = "*"
reqwest = { version = "*", default-features = false, features = ["json"] }
