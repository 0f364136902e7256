[package]
name = "shadow_core"
version = "0.1.0"
edition = "2021"
publish = false

[dependencies]
alloy-dyn-abi = { version = "=1.7.3", features = ["eip712"] }
alloy-json-abi = "=1.7.3"
clap = { version = "=4.6.7", default-features = false, features = ["derive", "std", "help", "usage"] }
ethabi = { version = "=18.0.0", default-features = false }
ethers-core = "=2.0.14"
ethers-providers = { version = "=2.0.14", default-features = false, features = ["ws"] }
tokio = { version = "=1.53.2", features = ["rt"] }
