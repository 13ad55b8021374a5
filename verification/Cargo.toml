[package]
name = "let_me_talk"
version = "0.1.0"
edition = "2021"
publish = false

[dependencies]
uuid = { version = "*", features = ["v4"] }
chrono = "*"
indexmap = "*"
serde = { version = "*", features = ["derive"] }
serde_json = "*"
