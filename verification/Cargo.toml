[package]
name = "transcriber"
version = "0.1.0"
edition = "2021"
publish = false

[dependencies]
tokio = { version = "*", features = ["full"] }
ratatui = "*"
crossterm = "*"
