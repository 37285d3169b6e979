[package]
name = "action_core"
version = "0.1.0"
edition = "2021"
publish = false

[dependencies]
tokio = { version = "1", features = ["process", "rt-multi-thread", "macros"] }
dirs = "*"
serde = { version = "1", features = ["derive"] }
