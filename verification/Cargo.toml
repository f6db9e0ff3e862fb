[package]
name = "wasi_nn_adaptor"
version = "0.1.0"
edition = "2021"
publish = false

[dev-dependencies]
rmp-serde = "=1.3.1"
serde = "=1.0.229"
rmp = "=0.8.15"
