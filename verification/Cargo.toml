[package]
name = "crab_nat"
version = "0.1.0"
edition = "2021"
publish = false

[dependencies]
bytes = "1"
socket2 = { version = "0.6", features = ["all"] }
thiserror = "2"
tokio = { version = "1", features = ["io-util", "macros", "net", "rt", "time"] }
tracing = "0.1"
