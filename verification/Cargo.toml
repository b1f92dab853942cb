[package]
name = "ethlogger"
version = "0.1.0"
edition = "2021"
publish = false

[dependencies]
futures = "=0.1.31"
rustc-hex = "=2.1.0"
ethereum-types = "=0.16.0"
ethabi = "=18.0.0"
web3 = "=0.8.0"
tokio-core = "=0.1.18"
tokio-timer = "=0.1.2"
serde = "1"
