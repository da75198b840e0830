[package]
name = "renderer"
version = "0.1.0"
edition = "2021"
publish = false

[dependencies]
aws-config = { version = "*", default-features = false }
aws-sdk-s3 = { version = "*", default-features = false }
chrono = "=0.4.45"
clap = { version = "=4.6.7", features = ["derive"] }
image = { version = "=0.24.9", default-features = false }
imageproc = "=0.23.1"
lambda_http = "*"
minimp4 = "=0.1.2"
openh264 = "=0.4.4"
rapier2d = "=0.17.2"
serde = { version = "=1.0.229", features = ["derive"] }
serde_json = "=1.0.154"
tokio = { version = "*", features = ["macros", "rt-multi-thread"] }
tracing = "*"
tracing-subscriber = { version = "*", default-features = false, features = ["fmt"] }
