[package]
name = "subdex"
version = "0.1.0"
edition = "2021"
publish = false

[dependencies]
serde = { version = "=1.0.229", features = ["derive"] }
parity-scale-codec = { version = "=3.7.5", features = ["derive"] }
sp-arithmetic = "*"
