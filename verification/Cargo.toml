[package]
name = "pickprune"
version = "0.1.0"
edition = "2021"
publish = false

[dependencies]
anyhow = "*"
ratatui = { version = "*", default-features = false, features = ["termion"] }
termion = "*"
