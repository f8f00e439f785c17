[package]
name = "task_runner_challenge"
version = "0.1.0"
edition = "2021"
publish = false

[dependencies]
rand = "=0.8.8"
serde = { version = "=1.0.229", features = ["derive"] }
tokio = { version = "=1.54.1", features = ["full"] }
warp = "=0.3.7"
async-std = "=1.13.2"
async-trait = "=0.1.92"
deadpool-sqlite = { version = "=0.14.0", features = ["rt_tokio_1", "bundled", "fallible_uint"] }
isahc = "=1.8.3"
