[package]
name = "zerossl"
version = "0.1.0"
edition = "2021"
publish = false

[dependencies]
openssl = "0.10"
reqwest = { version = "0.11", features = ["json"] }
serde = { version = "1", features = ["derive"] }
