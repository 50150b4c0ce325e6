[package]
name = "era_test_node"
version = "0.1.0"
edition = "2021"
publish = false

[dependencies]
url = "2"
alloy = { version = "0.6", default-features = false, features = ["network", "providers", "transports"] }
