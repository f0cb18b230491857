[package]
name = "tauri_mcp"
version = "0.1.0"
edition = "2021"
publish = false

[dependencies]
image = { version = "=0.24.9", default-features = false, features = ["jpeg"] }
log = "=0.4.34"
serde = { version = "=1.0.229", features = ["derive"] }
serde_json = "=1.0.154"
tokio = { version = "=1.54.1", features = ["io-util", "net", "rt", "sync", "time"] }
xcap = "=0.0.15"

[dev-dependencies]
base64 = "=0.22.1"
