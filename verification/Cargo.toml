[package]
name = "doorsign"
version = "0.1.0"
edition = "2021"
publish = false

[dependencies]
anyhow = "=1.0.104"
btleplug = "=0.11.8"
chrono = { version = "=0.4.45", features = ["serde"] }
dbus = { version = "=0.9.12", features = ["vendored"] }
futures = "=0.3.34"
reqwest = { version = "=0.12.28", default-features = false, features = ["json", "rustls-tls"] }
serde = { version = "=1.0.229", features = ["derive"] }
serde_json = "=1.0.154"
thiserror = "=1.0.69"
tokio = { version = "=1.54.1", features = ["fs", "macros", "rt-multi-thread", "sync", "time"] }
uuid = "=1.29.0"
