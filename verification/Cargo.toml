[package]
name = "aws-durable-execution-sdk"
version = "0.1.0"
edition = "2021"
publish = false

[dependencies]
serde = { version = "1", features = ["derive"] }
serde_json = "1"
thiserror = "*"
http = "1"
urlencoding = "*"
tokio = { version = "1", features = ["sync", "rt", "macros"] }
async-trait = "*"
aws-config = "*"
aws-credential-types = "*"
aws-sigv4 = "*"
aws-sdk-lambda = "*"
reqwest = { version = "*", default-features = false, features = ["rustls-tls"] }
