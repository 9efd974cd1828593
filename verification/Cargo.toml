[package]
name = "sscp"
version = "0.1.0"
edition = "2021"
publish = false

[dependencies]
aws-config = "1"
aws-sdk-s3 = "1"
aws-sdk-ssm = "1"
clap = { version = "4", features = ["derive"] }
slog = "2"
slog-async = "2"
slog-json = "2"
tokio = { version = "1", features = ["fs", "io-util", "macros", "rt-multi-thread", "time"] }
