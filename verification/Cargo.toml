[package]
name = "rustpods"
version = "0.1.0"
edition = "2021"
publish = false

[dependencies]
serde = { version = "1", features = ["derive"] }
serde_json = "1"
uuid = { version = "1", features = ["serde", "v4"] }
btleplug = { version = "0.11", features = ["serde"] }
tokio = { version = "1", features = ["full"] }
dirs-next = "2"
log = "0.4"
thiserror = "1"
chrono = "0.4"
futures = "0.3"
