[package]
name = "tray_shell"
version = "0.1.0"
edition = "2021"
publish = false

[dependencies]
serde = { version = "=1.0.229", features = ["derive"] }
serde_json = "=1.0.154"
tauri = { version = "=2.12.5", default-features = false, features = ["tray-icon", "image-png"] }
winreg = "=0.56.0"
