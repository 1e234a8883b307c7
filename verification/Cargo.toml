[package]
name = "agent_config"
version = "0.1.0"
edition = "2021"
publish = false

[dependencies]
url = "2"
toml = "0.8"
serde = { version = "1", features = ["derive"] }
slog = "2"
anyhow = "1"
