[package]
name = "s3_transfer"
version = "0.1.0"
edition = "2021"
publish = false

[dependencies]
url = "=2.5.8"
tokio = { version = "=1.53.2", features = ["full"] }
aws-config = { version = "=1.12.0", default-features = false, features = ["behavior-version-latest"] }
aws-sdk-s3 = { version = "=1.152.0", default-features = false, features = ["rt-tokio", "behavior-version-latest"] }
aws-smithy-types = { version = "=1.8.1", features = ["rt-tokio"] }
bytes = "=1.12.1"
anyhow = "=1.0.104"
color-eyre = "=0.6.5"
thiserror = "=2.0.21"
async-stream = "=0.3.6"
tokio-stream = "=0.1.19"
