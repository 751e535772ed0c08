[package]
name = "trigger_command"
version = "0.1.0"
edition = "2021"
publish = false

[dependencies]
anyhow = "=1.0.104"
clap = { version = "=4.5.61", features = ["derive"] }
serde = { version = "=1.0.229", features = ["derive"] }
tracing = "=0.1.44"
