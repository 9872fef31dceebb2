[package]
name = "ztunnel"
version = "0.1.0"
edition = "2021"
publish = false

[dependencies]
tokio = { version = "1", features = ["sync", "net", "rt-multi-thread", "io-util", "macros", "time"] }
drain = "0.1"
