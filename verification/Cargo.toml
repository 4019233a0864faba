[package]
name = "dojo_bridge"
version = "0.1.0"
edition = "2021"
publish = false

[dependencies]
async-channel = "*"
tokio = { version = "1", features = ["rt-multi-thread"] }
starknet-types-core = "*"
futures-util = "*"
log = "*"
