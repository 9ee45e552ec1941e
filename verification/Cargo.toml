[package]
name = "hedera"
version = "0.1.0"
edition = "2021"
publish = false

[dependencies]
async-trait = "=0.1.92"
hedera-proto = "=0.20.0"
serde = { version = "=1.0.229", features = ["derive"] }
serde_with = "=3.24.0"
time = "=0.3.55"
tonic = "0.12"
