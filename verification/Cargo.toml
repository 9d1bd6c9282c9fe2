[package]
name = "waf_detector"
version = "0.1.0"
edition = "2021"
publish = false

[dependencies]
anyhow = "*"
chrono = { version = "*", features = ["clock", "serde"] }
clap = { version = "*", features = ["derive"] }
dashmap = "*"
futures = "*"
rand = "*"
regex = "*"
reqwest = { version = "*", default-features = false }
serde = { version = "*", features = ["derive"] }
serde_json = "*"
serde_yaml = "*"
tempfile = "*"
tokio = { version = "*", features = ["rt-multi-thread", "macros", "time", "process"] }
url = "*"
urlencoding = "*"
