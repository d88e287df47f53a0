[package]
name = "edirstat-scan"
version = "0.1.0"
edition = "2021"
publish = false

[dependencies]
anyhow = "1"
clap = { version = "4", features = ["derive"] }
crossbeam = "0.8"
rusqlite = { version = "0.32", features = ["bundled"] }
serde_json = "1"
winapi-util = "0.1"
