[package]
name = "chronolog_core"
version = "0.1.0"
edition = "2021"
publish = false

[dependencies]
chrono = "0.4"
cron-parser = "*"
tokio = { version = "1", features = ["full"] }
async-trait = "0.1"
arc-swap = "1"
dashmap = "*"
once_cell = "1"
uuid = { version = "1", features = ["v4"] }
futures = "0.3"
typed-builder = "*"
multipool = "*"
rand = "0.9"
thiserror = "*"
