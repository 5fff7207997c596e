[package]
name = "doomhelix_agent"
version = "0.1.0"
edition = "2021"
publish = false

[dependencies]
anyhow = "1"
serde = { version = "1", features = ["derive"] }
serde_json = "1"
toml = "0.8"
tokio = { version = "1", features = ["process", "io-util", "rt", "sync", "macros"] }

[dev-dependencies]
