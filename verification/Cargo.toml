[package]
name = "njupt_wifi"
version = "0.1.0"
edition = "2021"
publish = false

[dependencies]
serde_json = "=1.0.151"
serde = { version = "1", features = ["derive"] }
serde_yaml = "0.9"
reqwest = { version = "=0.12.28", default-features = false, features = ["charset"] }
tokio = { version = "1", features = ["rt-multi-thread", "macros", "time", "sync"] }
anyhow = "1"
log = "0.4"
log4rs = "1"
