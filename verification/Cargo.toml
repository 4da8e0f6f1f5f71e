[package]
name = "clipboard_index"
version = "0.1.0"
edition = "2021"
publish = false

[dependencies]
seekstorm = "=0.12.27"
serde = { version = "=1.0.229", features = ["derive"] }
serde_json = "=1.0.154"
base64 = "=0.22.1"
once_cell = "=1.21.4"
dirs = "6"
tokio = { version = "1", features = ["rt", "rt-multi-thread", "sync"] }
