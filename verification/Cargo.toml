[package]
name = "prnotify"
version = "0.1.0"
edition = "2021"
publish = false

[dependencies]
anyhow = "=1.0.104"
config = { version = "=0.15.27", default-features = false, features = ["toml"] }
directories = "=6.0.0"
env_logger = "=0.11.11"
log = "=0.4.34"
regex = "=1.13.1"
reqwest = { version = "=0.13.5", default-features = false, features = ["json", "query", "rustls"] }
rusqlite = { version = "=0.40.2", features = ["bundled"] }
serde = { version = "=1.0.229", features = ["derive"] }
serde_json = "=1.0.154"
shellexpand = "=3.1.2"
tokio = { version = "=1.54.1", features = ["macros", "rt-multi-thread"] }
