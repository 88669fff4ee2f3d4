[package]
name = "processor"
version = "0.1.0"
edition = "2021"
publish = false

[dependencies]
anyhow = "=1.0.104"
clap = { version = "=4.6.7", features = ["derive"] }
componentize-py = "0.25"
glob = "=0.3.4"
tokio = { version = "=1.54.1", features = ["fs", "macros", "rt-multi-thread"] }
uuid = { version = "=1.29.0", features = ["v4"] }
wac-graph = "=0.12.0"
