[package]
name = "fuel_node"
version = "0.1.0"
edition = "2021"
publish = false

[dependencies]
cynic = "=3.14.0"
fuel-crypto = { version = "=0.66.4", features = ["random"] }
fuel-merkle = "=0.66.4"
fuel-tx = "=0.66.4"
fuel-types = "=0.66.4"
futures = "=0.3.34"
hex = "=0.4.3"
itertools = "=0.10.5"
rand = "=0.8.8"
serde = { version = "=1.0.229", features = ["derive"] }
serde_json = "=1.0.154"
thiserror = "=1.0.69"
tokio = { version = "=1.54.1", features = ["macros", "rt", "sync", "time"] }
