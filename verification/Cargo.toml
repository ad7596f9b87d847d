[package]
name = "hyperactor_mailbox"
version = "0.1.0"
edition = "2021"
publish = false

[dependencies]
bincode = "1.3.3"
dashmap = "5.5.3"
serde = { version = "1", features = ["derive"] }
tokio = { version = "1", features = ["sync", "rt", "macros", "time"] }
tokio-util = "0.7"
futures = "0.3"
anyhow = "1"
thiserror = "1"
tracing = "0.1"
