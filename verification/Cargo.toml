[package]
name = "pcsc-rs"
version = "0.1.0"
edition = "2021"
publish = false

[dependencies]
regex = "1"
anyhow = "1"
arc-swap = "1"
axum = "*"
bytes = "1"
cfg-if = "1"
fastwebsockets = { version = "*", features = ["upgrade"] }
http-body-util = "*"
hyper = { version = "1", features = ["client", "http1"] }
hyper-util = { version = "*", features = ["tokio"] }
rust_socketio = "*"
self_update = "*"
serde = { version = "1", features = ["derive"] }
serde_derive = "1"
serde_json = "1"
sysinfo = "*"
tokio = { version = "1", features = ["rt-multi-thread", "macros", "net"] }
