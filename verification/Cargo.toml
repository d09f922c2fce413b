[package]
name = "xswd-relayer"
version = "0.1.0"
edition = "2021"
publish = false

[dependencies]
actix-web = "=4.18.1"
actix-ws = "=0.3.1"
anyhow = "=1.0.104"
clap = { version = "=4.6.7", features = ["derive", "string"] }
dashmap = "=6.2.1"
humantime = "=2.4.0"
humantime-serde = "=1.1.1"
serde = { version = "=1.0.229", features = ["derive"] }
thiserror = "=1.0.69"
tokio = { version = "=1.54.1", features = ["macros", "rt-multi-thread", "sync", "time"] }
uuid = { version = "=1.29.0", features = ["v4", "serde"] }
