[package]
name = "messenger_store"
version = "0.1.0"
edition = "2021"
publish = false

[dependencies]
aes-gcm = "=0.10.3"
base64 = "=0.22.1"
generic-array = "=0.14.7"
rand = "=0.8.8"
serde = { version = "=1.0.229", features = ["derive"] }
serde_json = "=1.0.154"
log = "=0.4.34"
urlencoding = "=2.1.3"
tauri = { version = "2", default-features = false, features = ["tray-icon"] }
