[package]
name = "credvault"
version = "0.1.0"
edition = "2021"
publish = false

[dependencies]
aes-gcm-siv = "=0.10.3"
base64 = "=0.13.1"
pbkdf2 = "=0.11.0"
rand = "0.8"
uuid = { version = "1", features = ["v4"] }
zxcvbn = "=2.2.2"
serde = { version = "1", features = ["derive"] }
serde_json = "1"
thiserror = "1"
reqwest = { version = "0.11", default-features = false, features = ["json"] }
matchit = "=0.5.0"
