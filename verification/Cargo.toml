[package]
name = "ethink"
version = "0.1.0"
edition = "2021"
publish = false

[dependencies]
ethereum = { version = "=0.18.2", features = ["with-scale"] }
frame-support = "=49.0.1"
frame-system = "=49.0.0"
parity-scale-codec = { version = "=3.7.5", features = ["derive"] }
scale-info = { version = "=2.11.6", features = ["derive"] }
sp-api = "=44.0.0"
sp-core = "=43.0.0"
sp-io = "=49.0.0"
sp-runtime = "=49.0.0"
