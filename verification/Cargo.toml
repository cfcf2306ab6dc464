[package]
name = "acp_engine"
version = "0.1.0"
edition = "2021"
publish = false

[dependencies]
agent-client-protocol = "=1.3.0"
tokio = { version = "=1.53.2", features = ["full"] }
tokio-util = { version = "=0.7.19", features = ["compat"] }
serde = { version = "=1.0.229", features = ["derive"] }
serde_json = "=1.0.151"
