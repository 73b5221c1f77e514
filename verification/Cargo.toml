[package]
name = "enveloperb"
version = "0.1.0"
edition = "2021"
publish = false

[dependencies]
aes-gcm = "=0.11.1"
rand = "=0.10.3"
aws-config = "=1.12.0"
aws-sdk-kms = "=1.123.0"
aws-types = "=1.6.0"
tokio = { version = "=1.53.2", features = ["rt-multi-thread"] }
