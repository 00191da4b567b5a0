[package]
name = "tool_agent"
version = "0.1.0"
edition = "2021"
publish = false

[dependencies]
serde_yaml = "0.9"
serde = { version = "1", features = ["derive"] }
async-trait = "0.1"
futures = "0.3"
