[package]
name = "webcrypto_shared"
version = "0.1.0"
edition = "2021"
publish = false

[dependencies]
deno_core = "0.110"
rsa = "0.5"
serde = { version = "1", features = ["derive"] }
