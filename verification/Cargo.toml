[package]
name = "miden-watch"
version = "0.1.0"
edition = "2021"
publish = false

[dependencies]
chrono = "*"
url = "*"
clap = { version = "*", features = ["derive", "env"] }
color-eyre = "*"
crossterm = { version = "*", features = ["event-stream"] }
futures = "*"
ratatui = "*"
rusqlite = { version = "*", features = ["bundled"] }
tokio = { version = "*", features = ["full"] }
