[package]
name = "stg_mamba"
version = "0.1.0"
edition = "2021"
publish = false

[dependencies]
ringbuffer = "=0.15.0"
anyhow = "=1.0.104"
burn = { version = "=0.16.1", default-features = false, features = ["std", "ndarray", "autodiff"] }
chrono = { version = "=0.4.45", default-features = false, features = ["std", "now", "serde"] }
clap = { version = "=4.6.7", default-features = false, features = ["std", "derive", "help", "usage", "error-context"] }
env_logger = { version = "=0.11.11", default-features = false }
futures-util = "=0.3.34"
log = "=0.4.35"
reqwest = { version = "=0.12.28", default-features = false, features = ["json"] }
serde = { version = "=1.0.229", features = ["derive"] }
serde_json = "=1.0.154"
tokio = { version = "=1.54.1", features = ["rt-multi-thread", "macros", "sync", "time"] }
tokio-tungstenite = "=0.24.0"
