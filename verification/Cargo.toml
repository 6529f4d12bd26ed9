[package]
name = "rocode"
version = "0.1.0"
edition = "2021"
publish = false

[dependencies]
serde_json = "=1.0.154"
unicode-width = "=0.2.3"
serde = { version = "=1.0.229", features = ["derive"] }
ratatui = { version = "*", default-features = false }
chrono = { version = "0.4", default-features = false, features = ["clock", "serde"] }
uuid = { version = "1", features = ["v4"] }
