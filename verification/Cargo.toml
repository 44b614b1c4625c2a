[package]
name = "pinggraph"
version = "0.1.0"
edition = "2021"
publish = false

[dependencies]
anyhow = "*"
chrono = "*"
clap = { version = "*", features = ["derive"] }
crossterm = "*"
ping-rs = "*"
ratatui = "*"
tokio = { version = "*", features = ["full"] }
