[package]
name = "actor_lite"
version = "0.1.0"
edition = "2021"
publish = false

[dependencies]
tokio = { version = "1", features = ["sync", "rt", "rt-multi-thread"] }
anyhow = "1"
async-trait = "0.1"
thiserror = "1"
