[package]
name = "r503"
version = "0.1.0"
edition = "2021"
publish = false

[dependencies]
embedded-io-async = "*"
anyhow = "1"
postcard = { version = "1", features = ["use-std"] }
postcard-rpc = "*"
postcard-schema = { version = "*", features = ["derive"] }
poststation-sdk = "*"
serde = { version = "1", features = ["derive"] }
tokio = { version = "1", features = ["macros", "rt-multi-thread", "time"] }
