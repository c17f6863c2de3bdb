[package]
name = "forkstack"
version = "0.1.0"
edition = "2021"
publish = false

[dependencies]
toml = "0.8"
anyhow = "1"
serde = { version = "1", features = ["derive"] }
clap = { version = "4", features = ["derive"] }
tokio = { version = "1", features = ["rt-multi-thread", "macros"] }
reqwest = { version = "0.12", default-features = false, features = ["json", "rustls-tls"] }
aws-config = "1"
aws-sdk-s3 = "1"
