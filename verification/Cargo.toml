[package]
name = "tendermintx"
version = "0.1.0"
edition = "2021"
publish = false

[dependencies]
alloy-primitives = "*"
alloy-sol-types = "*"
tokio = { version = "*", features = ["rt", "macros", "time"] }
log = "*"
env_logger = "*"
dotenv = "*"
anyhow = "*"

[dev-dependencies]
subtle-encoding = "*"
