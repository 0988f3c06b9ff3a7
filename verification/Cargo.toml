[package]
name = "vm_validator"
version = "0.1.0"
edition = "2021"
publish = false

[dependencies]
anyhow = "1"
fail = { version = "0.5", features = ["failpoints"] }
poem = { version = "1.3", features = ["rustls"] }
poem-openapi = "2.0"
tokio = { version = "1", features = ["rt-multi-thread"] }
