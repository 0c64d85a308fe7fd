[package]
name = "headers_cache"
version = "0.1.0"
edition = "2021"
publish = false

[dependencies]
anyhow = "1"
axum = "0.6"
futures = "0.3"
log = "0.4"
parity-scale-codec = "3"
serde = { version = "1", features = ["derive"] }
serde_json = "1"
sp-runtime = "*"
thiserror = "1"
tokio = { version = "1", features = ["rt-multi-thread", "macros", "time", "sync"] }
