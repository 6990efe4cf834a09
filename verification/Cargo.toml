[package]
name = "zkrust"
version = "0.1.0"
edition = "2021"
publish = false

[dependencies]
async-trait = "*"
bytes = "*"
parking_lot = "*"
thiserror = "*"
tokio = { version = "*", features = ["net", "io-util", "time", "rt-multi-thread", "macros"] }
tracing = "*"
