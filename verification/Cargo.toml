[package]
name = "synapse_lib"
version = "0.1.0"
edition = "2021"
publish = false

[dependencies]
keyring = "=2.3.3"
uuid = { version = "=1.29.0", features = ["v4"] }
chrono = { version = "=0.4.45", features = ["serde"] }
serde = { version = "=1.0.229", features = ["derive"] }
serde_json = "=1.0.154"
tokio = { version = "=1.54.1", features = ["fs", "sync", "rt-multi-thread", "macros", "time"] }
thiserror = "=1.0.69"
log = "=0.4.34"
env_logger = "=0.10.2"
async-trait = "=0.1.92"
reqwest = { version = "=0.11.27", default-features = false }
