[package]
name = "bosh"
version = "0.1.0"
edition = "2021"
publish = false

[dependencies]
anyhow = "=1.0.104"
read-from = "=0.5.2"
serde = { version = "=1.0.229", features = ["derive"] }
serde_repr = "=0.1.21"
softfp = "=0.1.0"
