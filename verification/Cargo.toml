[package]
name = "shell_bridge"
version = "0.1.0"
edition = "2021"
publish = false

[dependencies]
log = "0.4"
serde = { version = "1", features = ["derive"] }
serde_json = "=1.0.154"
tauri = { version = "2", default-features = false, features = ["wry"] }
tauri-plugin-log = "2"
ts-rs = { version = "*", default-features = false }
