[package]
name = "atrain"
version = "0.1.0"
edition = "2021"
publish = false

[dependencies]
eyre = "=0.6.14"
futures = "=0.3.34"
rand = "=0.8.8"
reqwest = { version = "0.11", default-features = false }
thiserror = "=1.0.69"
tokio = { version = "=1.54.1", features = ["time", "rt", "macros"] }
