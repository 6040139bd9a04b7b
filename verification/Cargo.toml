[package]
name = "settings_sync"
version = "0.1.0"
edition = "2021"
publish = false

[dependencies]
anyhow = "*"
axum = "*"
chrono = "*"
crc32fast = "*"
scylla = "*"
serde_json = "*"
tracing = "*"
