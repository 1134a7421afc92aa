[package]
name = "neta"
version = "0.1.0"
edition = "2021"
publish = false

[dependencies]
base64 = "=0.22.1"
crossterm = { version = "=0.28.1", features = ["event-stream"] }
futures-util = "=0.3.34"
libc = "=0.2.191"
ratatui = { version = "=0.29.0", default-features = false, features = ["crossterm"] }
ratatui-rmux = "=0.10.0"
rmux-sdk = "=0.10.0"
serde = { version = "=1.0.229", features = ["derive"] }
serde_json = "=1.0.154"
sha2 = "=0.10.9"
tokio = { version = "=1.54.1", features = ["full"] }
