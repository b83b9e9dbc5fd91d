[package]
name = "backoff-config"
version = "0.1.0"
edition = "2021"
publish = false

[dependencies]
backon = "=1.6.0"
duration-str = { version = "=0.21.0", default-features = false, features = ["serde"] }
fastrand = "=2.3.0"
serde = { version = "=1.0.229", features = ["derive"] }
smart-default = "=0.7.1"
