[package]
name = "taskquest"
version = "0.1.0"
edition = "2021"
publish = false

[dependencies]
anyhow = "*"
chrono = "*"
crossterm = "*"
ratatui = "*"
rusqlite = { version = "*", features = ["bundled"] }
