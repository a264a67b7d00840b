[package]
name = "join_my_ride"
version = "0.1.0"
edition = "2021"
publish = false

[dependencies]
futures = "=0.3.34"
uuid = { version = "=1.29.0", features = ["v4"] }
serde = { version = "=1.0.229", features = ["derive"] }
serde_json = "=1.0.154"
gloo-net = "=0.6.0"
seed = { version = "=0.10.0", features = ["routing"] }
rocket = "=0.5.2"
