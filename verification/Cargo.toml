[package]
name = "smithy_retries"
version = "0.1.0"
edition = "2021"
publish = false

[dependencies]
aws-smithy-runtime-api = { version = "=1.19.0", features = ["client"] }
aws-smithy-types = "=1.8.1"
http = "=1.5.0"
minicbor = "=2.3.0"
