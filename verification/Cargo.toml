[package]
name = "chatte_vpn"
version = "0.1.0"
edition = "2021"
publish = false

[dependencies]
keyring = { version = "3", features = ["windows-native", "linux-native"] }
reqwest = { version = "0.12", default-features = false, features = ["json", "rustls-tls"] }
serde = { version = "1", features = ["derive"] }
serde_json = "1"
