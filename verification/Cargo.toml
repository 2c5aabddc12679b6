[package]
name = "vibe_lever"
version = "0.1.0"
edition = "2021"
publish = false

[dependencies]
serde_json = "*"
toml = "*"
dirs = "*"
rusqlite = { version = "*", features = ["bundled"] }
