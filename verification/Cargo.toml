[package]
name = "s3_transfer"
version = "0.1.0"
edition = "2021"
publish = false

[dependencies]
aws-config = { version = "*", default-features = false }
aws-sdk-s3 = { version = "*", default-features = false }
aws-smithy-types = "*"
bytes = "*"
futures-core = "*"
indicatif = "*"
log = "*"
tokio = { version = "*", features = ["fs", "io-util"] }
tokio-util = { version = "*", features = ["io"] }
