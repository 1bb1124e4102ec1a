[package]
name = "seismic-rpc"
version = "0.1.0"
edition = "2021"
publish = false

[dependencies]
alloy-primitives = "=1.7.3"
alloy-consensus = "1.8"
alloy-eips = "1.8"
alloy-rpc-types-eth = "1.8"
revm-context = "9"
serde = { version = "1", features = ["derive"] }
futures = "0.3"
eyre = "0.6"
