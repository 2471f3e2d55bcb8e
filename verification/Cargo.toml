[package]
name = "netutil"
version = "0.1.0"
edition = "2021"
publish = false

[dependencies]
anyhow = "1"
arboard = { version = "3", default-features = false }
crossterm = "*"
if-addrs = "*"
ratatui = "*"
resolv-conf = "*"
serde = { version = "1", features = ["derive"] }
