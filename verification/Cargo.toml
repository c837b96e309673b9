[package]
name = "desktop_shell"
version = "0.1.0"
edition = "2021"
publish = false

[dependencies]
serde = { version = "=1.0.229", features = ["derive"] }
serde_json = { version = "=1.0.151", features = ["float_roundtrip"] }
log = "=0.4.34"
thiserror = "=2.0.21"
tauri = { version = "2", default-features = false }
tauri-plugin-log = "2"
