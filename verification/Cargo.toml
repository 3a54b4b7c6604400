[package]
name = "fssh"
version = "0.1.0"
edition = "2021"
publish = false

[dependencies]
aes-gcm = "=0.10.3"
anyhow = "=1.0.104"
bincode = "=1.3.3"
bytes = "=1.12.1"
crossterm = "=0.27.0"
dirs = "=7.0.0"
fuzzy-matcher = "=0.3.7"
portable-pty = "0.8"
ratatui = "=0.27.0"
serde = { version = "=1.0.229", features = ["derive"] }
ssh2-config = "=0.8.1"
tokio = { version = "=1.53.2", features = ["rt-multi-thread", "sync"] }
tui-input = "0.8"
tui-term = "=0.1.12"
unicode-width = "0.1"
whoami = "=1.5.2"
