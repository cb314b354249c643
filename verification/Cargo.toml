[package]
name = "airmash_server"
version = "0.1.0"
edition = "2021"
publish = false

[dependencies]
rand = "=0.8.8"
bstr = "=1.13.1"
serde = { version = "=1.0.229", features = ["derive"] }
nalgebra = { version = "=0.32.6", features = ["serde-serialize"] }
