[package]
name = "message_mover"
version = "0.1.0"
edition = "2021"
publish = false

[dependencies]
anyhow = "=1.0.104"
dashmap = "=5.5.3"
futures = "=0.3.34"
reqwest = { version = "=0.11.27", default-features = false, features = ["rustls-tls"] }
serde_json = "=1.0.154"
tokio = { version = "=1.54.1", features = ["macros", "rt-multi-thread", "sync", "time"] }
twilight-gateway = "=0.15.4"
twilight-http = "=0.15.4"
twilight-mention = "=0.15.3"
twilight-model = "=0.15.4"
twilight-standby = "=0.15.4"
twilight-util = { version = "=0.15.4", features = ["builder", "permission-calculator"] }
