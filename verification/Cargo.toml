[package]
name = "snailer_gui"
version = "0.1.0"
edition = "2021"
publish = false

[dependencies]
base64 = "=0.22.1"
chrono = "=0.4.45"
keyring = "=4.2.0"
serde = { version = "=1.0.229", features = ["derive"] }
serde_json = "=1.0.151"
tonic = { version = "=0.12.3", features = ["tls"] }
ureq = { version = "=3.4.2", features = ["json"] }
uuid = { version = "=1.27.0", features = ["v4"] }
walkdir = "=2.5.0"
