[package]
name = "fastjob_worker"
version = "0.1.0"
edition = "2021"
publish = false

[dependencies]
chrono = "0.4"
dashmap = "*"
dyn-clone = "*"
tokio = { version = "1", features = ["sync", "macros", "rt"] }
