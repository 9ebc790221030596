[package]
name = "sshield"
version = "0.1.0"
edition = "2021"
publish = false

[dependencies]
anyhow = "=1.0.104"
async-trait = "=0.1.92"
chrono = { version = "=0.4.45", default-features = false, features = ["clock"] }
clap = { version = "=4.6.7", features = ["derive"] }
crossterm = "=0.29.0"
dialog = "=0.3.0"
dirs = "=7.0.0"
extrasafe = "=0.5.1"
futures = "=0.3.34"
keyring = { version = "=3.6.3", default-features = false, features = ["linux-native"] }
rusqlite = { version = "=0.40.2", features = ["bundled"] }
russh-keys = "=0.49.2"
ssh2-config = "=0.8.1"
tokio = { version = "=1.53.2", features = ["full"] }
tokio-stream = "=0.1.19"
toml = "=1.1.6"
