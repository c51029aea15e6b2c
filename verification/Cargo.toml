[package]
name = "apalis_board"
version = "0.1.0"
edition = "2021"
publish = false

[dependencies]
futures = "0.3"
serde_json = { version = "1", features = ["preserve_order"] }
serde = { version = "1", features = ["derive"] }
bytes = "1"
tracing-subscriber = { version = "0.3", features = ["json"] }
tracing-core = "0.1"
