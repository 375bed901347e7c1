[package]
name = "coretime_notifier"
version = "0.1.0"
edition = "2021"
publish = false

[dependencies]
log = "*"
rocket = { version = "*", features = ["json"] }
rocket_cors = "*"
rusqlite = { version = "*", features = ["bundled"] }
serde = { version = "*", features = ["derive"] }
tokio = { version = "*", features = ["rt-multi-thread", "macros"] }
validator = "*"
