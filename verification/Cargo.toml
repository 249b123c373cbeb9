[package]
name = "torrust_tracker"
version = "0.1.0"
edition = "2021"
publish = false

[dependencies]
toml = "0.5"
aquatic_udp_protocol = "0.2"
serde = { version = "1", features = ["derive"] }
serde_json = "1"
log = "0.4"
futures = "0.3"
tokio = { version = "1", features = ["rt-multi-thread", "macros", "signal", "sync", "net", "time"] }
axum = "0.6"
axum-server = "0.5"
external-ip = "*"
