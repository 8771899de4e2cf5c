[package]
name = "forge_agents"
version = "0.1.0"
edition = "2021"
publish = false

[dependencies]
uuid = { version = "1", features = ["v4"] }
serde = { version = "1", features = ["derive"] }
serde_json = "1"
serde_yaml = "0.9"
thiserror = "1"
anyhow = "1"
log = "0.4"
env_logger = "0.11"
glob = "0.3"
sha2 = "0.10"
