[package]
name = "coherence_core_db"
version = "0.1.0"
edition = "2021"
publish = false

[dependencies]
sha2 = "*"
serde = { version = "1", features = ["derive"] }
serde_json = "1"
toml = "*"
uuid = { version = "1", features = ["v4"] }
ratatui = "*"
mysql = "*"
refinery = { version = "*", features = ["mysql"] }
