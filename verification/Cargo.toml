[package]
name = "obscura_mcp"
version = "0.1.0"
edition = "2021"
publish = false

[dependencies]
serde_json = "1"
serde = { version = "1", features = ["derive"] }
tokio = { version = "1", features = ["io-std", "io-util", "time", "rt-multi-thread", "macros"] }
anyhow = "1"
