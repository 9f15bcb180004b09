[package]
name = "scarust"
version = "0.1.0"
edition = "2021"
publish = false

[dependencies]
rand = "0.8"
mac_address = "1"
itertools = "0.10"
serde = { version = "1", features = ["derive"] }
serde_json = "1"
serde_yaml = "0.9"
clap = { version = "4", features = ["derive"] }
smoltcp = "0.11"

[dev-dependencies]
hex = "0.4"
