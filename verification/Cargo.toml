[package]
name = "agentenv_snapshot"
version = "0.1.2"
edition = "2021"
publish = false

[dependencies]
anyhow = "1"
chrono = { version = "0.4", features = ["serde"] }
clap = { version = "4", features = ["derive"] }
serde = { version = "1", features = ["derive"] }
serde_json = "1"
tabled = "*"
tokio = { version = "1", features = ["fs", "macros", "rt", "time"] }
tracing = "0.1"
uuid = { version = "1", features = ["v7"] }
