[package]
name = "momento-cli"
version = "0.1.0"
edition = "2021"
publish = false

[dependencies]
aws-config = "1"
aws-sdk-cloudwatch = "1"
aws-sdk-elasticache = "1"
flate2 = "1"
governor = "0.6"
indicatif = "0.17"
log = "0.4"
regex = "1"
serde = { version = "1", features = ["derive"] }
serde_json = "1"
tokio = { version = "1", features = ["macros", "rt-multi-thread", "sync", "fs", "io-util", "time"] }
