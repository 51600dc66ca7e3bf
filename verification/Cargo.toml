[package]
name = "terminal-cell"
version = "0.1.0"
edition = "2021"
publish = false

[dependencies]
kameo = "0.20"
regex = "1"
thiserror = "2"
tokio = { version = "1", features = ["rt-multi-thread", "net"] }
