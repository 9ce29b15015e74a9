[package]
name = "file_tasks"
version = "0.1.0"
edition = "2021"
publish = false

[dependencies]
anyhow = "*"
async-priority-channel = "*"
futures = "*"
tokio = { version = "*", features = ["fs", "io-util", "macros", "rt", "rt-multi-thread", "sync"] }
tracing = "*"
trash = "*"
