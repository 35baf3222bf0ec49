[package]
name = "loadgen"
version = "0.1.0"
edition = "2021"
publish = false

[dependencies]
hyper = "0.13"
serde = "1"
serde_derive = "1"
tokio = { version = "0.2", features = ["full"] }
toml = "0.5"
