[package]
name = "portfolio_vault"
version = "0.1.0"
edition = "2021"
publish = false

[dependencies]
aes-gcm = "0.10"
argon2 = "0.5"
base64 = "0.22"
dirs = "6"
rusqlite = { version = "0.37", features = ["bundled-sqlcipher"] }
tauri = { version = "2", default-features = false }
