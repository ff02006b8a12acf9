[package]
name = "daily_todo"
version = "0.1.0"
edition = "2021"
publish = false

[dependencies]
chrono = { version = "0.4", features = ["serde"] }
crossterm = "0.25"
serde = { version = "1.0", features = ["derive"] }
serde_json = "1.0"
tui = { version = "0.19", default-features = false, features = ["crossterm"] }
