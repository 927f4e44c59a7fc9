[package]
name = "beacon_std_lib"
version = "0.1.0"
edition = "2021"
publish = false

[dependencies]
anyhow = "=1.0.104"
hifitime = "=4.3.1"
lazy_static = "=1.5.1"
serde = { version = "=1.0.229", features = ["derive", "rc"] }
