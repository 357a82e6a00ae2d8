[package]
name = "rcopy"
version = "0.1.0"
edition = "2021"
publish = false

[dependencies]
sha2 = "=0.10.9"
uuid = { version = "=1.29.0", features = ["v4", "serde"] }
chrono = { version = "=0.4.45", features = ["serde"] }
serde = { version = "=1.0.229", features = ["derive"] }
serde_json = "=1.0.154"
toml = "=0.8.23"
rusqlite = { version = "=0.32.1", features = ["bundled"] }
tokio = { version = "=1.54.1", features = ["full"] }
async-trait = "=0.1.92"
anyhow = "=1.0.104"
glib = "=0.20.12"
gtk4 = "=0.9.7"
libadwaita = "=0.7.2"

[dev-dependencies]
tempfile = "=3.27.0"
