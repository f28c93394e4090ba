[package]
name = "nimbus"
version = "0.1.0"
edition = "2021"
publish = false

[dependencies]
async-trait = "=0.1.92"
aws-config = "=1.12.0"
aws-sdk-s3 = "=1.152.0"
aws-sdk-secretsmanager = "=1.120.0"
aws-types = "=1.6.0"
chrono = "=0.4.45"
google-cloud-storage = "=0.24.0"
google-cloudtasks2 = "=5.0.5"
google-secretmanager1 = "=5.0.5"
hyper = { version = "=0.14.32", features = ["client", "http1", "http2"] }
hyper-rustls = { version = "=0.24.2", features = ["http2"] }
infer = "=0.15.0"
thiserror = "=1.0.69"
tokio = { version = "=1.54.1", features = ["fs", "macros", "rt-multi-thread"] }
yup-oauth2 = "=8.3.2"
