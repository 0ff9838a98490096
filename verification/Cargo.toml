[package]
name = "moonkit"
version = "0.1.0"
edition = "2021"
publish = false

[dependencies]
parity-scale-codec = { version = "3", default-features = false, features = ["std"] }
anyhow = "1"
thiserror = "1"
log = "0.4"
