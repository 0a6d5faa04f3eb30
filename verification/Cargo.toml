[package]
name = "lumastra-discord-rpc"
version = "0.1.0"
edition = "2021"
publish = false

[dependencies]
discord-rich-presence = "1"
keyring = { version = "3", features = ["apple-native", "windows-native"] }
reqwest = { version = "0.12", default-features = false, features = ["json", "rustls-tls"] }
serde = { version = "1", features = ["derive"] }
serde_json = "1"
thiserror = "2"
tokio = { version = "1", features = ["rt", "time"] }
url = "2"
