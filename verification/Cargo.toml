[package]
name = "biedbot"
version = "0.1.0"
edition = "2021"
publish = false

[dependencies]
bincode = "=1.3.3"
chrono = "=0.4.45"
cookie = { version = "=0.17.0", features = ["percent-encode"] }
dptree = "=0.3.0"
reqwest = { version = "=0.11.27", features = ["json"] }
serde = { version = "1", features = ["derive"] }
serde_json = "=1.0.154"
sled = "=0.34.7"
takecell = "=0.1.1"
teloxide = { version = "=0.12.2", features = ["macros"] }
tokio = { version = "1", features = ["macros", "rt-multi-thread", "sync"] }
toml = "=0.5.11"
